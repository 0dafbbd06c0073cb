use ovpn_admin::openvpn::{
    bundle_filename, check_cn, list_ccd, CcdEntry, client_audit, client_error_message, client_issue, contains_text,
    create_failure_status, list_issued_with_status, normalize_newlines, plan_client, ClientError,
    CLIENT_CREATE,
};
use ovpn_admin::vpncertd::{
    bundle_bytes, dec_to_hex_upper, limit_listing, looks_like_serial, revoke_listed, revoke_start,
    DaemonError, IssueReply, IssuedMeta, RevokeStep,
};

const CRL: &str = "-----BEGIN X509 CRL-----
MIIBgTBrAgEBMA0GCSqGSIb3DQEBCwUAMBExDzANBgNVBAMMBnRlc3RjYRcNMjYx
MDE5MDgwMTAxWhcNMzYxMDE2MDgwMTAxWjAVMBMCAhAAFw0yNjEwMTkwODAxMDFa
oA8wDTALBgNVHRQEBAICEAAwDQYJKoZIhvcNAQELBQADggEBABPyZDArcH4/33kx
QqDpeUEzYdqEL0vZa1Au9Pl54wmVdNt89SEH/JzOP9kyCHy/g3wdsN7836EB86DS
1biOPD5B9/C7OheXp79bfJrwjAHx1tYM8mkpyPaXgnA/LhV+CjuXAO8iqAzWOklq
OWWthNJzDUBjTEqCExBKC8/0Ob0eQL5iLtoJQMfh3bo0IqSR4yeXxyX/0OZhwbfF
1zUAbOGHBa+Fpu32+6NKCYPP/b1CnZXC6GUEQ1UUMEh5ytUBUiYhka8PQnypEaK0
jSiZAy1xO1BCgsb/dYnDwPQia0C7bf+uNrRaTcn7x50RuTrLAIg6QqxEqzCZ/TOy
/Hq5ewo=
-----END X509 CRL-----
";

fn meta(serial: &str, cn: &str) -> IssuedMeta {
    IssuedMeta {
        serial: serial.to_string(),
        cn: cn.to_string(),
        profile: "client".to_string(),
        not_after: "2030-01-01".to_string(),
        sha256: None,
    }
}

#[test]
fn serial_detection() {
    assert!(looks_like_serial("4096"));
    assert!(!looks_like_serial(""));
    assert!(!looks_like_serial("alice"));
    assert!(matches!(revoke_start("12"), RevokeStep::Revoke { serial } if serial == "12"));
    assert!(matches!(revoke_start("alice"), RevokeStep::ListIssued));
}

#[test]
fn decimal_serial_to_hex() {
    assert_eq!(dec_to_hex_upper("4096"), Ok("1000".to_string()));
    assert_eq!(dec_to_hex_upper("255"), Ok("FF".to_string()));
    assert_eq!(dec_to_hex_upper("x"), Err(DaemonError::NotDecimal));
}

#[test]
fn revocation_by_name_takes_highest_serial() {
    let list = vec![meta("5", "alice"), meta("12", "bob"), meta("9", "alice"), meta("7", "alice")];
    assert_eq!(revoke_listed("alice", &list), Ok("9".to_string()));
    assert_eq!(revoke_listed("bob", &list), Ok("12".to_string()));
    assert_eq!(revoke_listed("carol", &list), Err(DaemonError::NotFound));
}

#[test]
fn revocation_ties_take_the_last_listed() {
    let list = vec![meta("x", "alice"), meta("0", "alice"), meta("y", "alice")];
    assert_eq!(revoke_listed("alice", &list), Ok("y".to_string()));
}

#[test]
fn listing_limit() {
    let list = vec![meta("1", "a"), meta("2", "b"), meta("3", "c")];
    assert_eq!(limit_listing(list, Some(2)).len(), 2);
    let list = vec![meta("1", "a")];
    assert_eq!(limit_listing(list, Some(5)).len(), 1);
    let list = vec![meta("1", "a"), meta("2", "b")];
    assert_eq!(limit_listing(list, None).len(), 2);
}

#[test]
fn bundle_decoding() {
    assert_eq!(bundle_bytes(Some("UEsDBA==")), Ok(vec![0x50, 0x4b, 0x03, 0x04]));
    assert_eq!(bundle_bytes(None), Err(DaemonError::MissingBundle));
    assert_eq!(bundle_bytes(Some("***")), Err(DaemonError::BadBundle));
}

#[test]
fn common_name_rule() {
    assert_eq!(check_cn("^[a-z0-9_-]+$", "alice-laptop"), Ok(()));
    assert_eq!(check_cn("^[a-z0-9_-]+$", "Alice Laptop"), Err(ClientError::InvalidCn));
    assert_eq!(check_cn("([", "alice"), Err(ClientError::BadPattern));
}

#[test]
fn client_plan_uses_given_or_random_passphrase() {
    let p = plan_client("^[a-z]+$", "alice", Some("given")).ok().unwrap();
    assert_eq!(p.cn, "alice");
    assert_eq!(p.passphrase, "given");
    let q = plan_client("^[a-z]+$", "alice", None).ok().unwrap();
    assert_eq!(q.passphrase.len(), 22);
    assert!(plan_client("^[a-z]+$", "Alice1", None).is_err());
    let c = client_issue(
        q,
        IssueReply {
            cert_pem: "CERT".to_string(),
            key_pem_encrypted: "KEY".to_string(),
            serial: Some("4096".to_string()),
            not_after: None,
        },
    );
    assert_eq!(c.cn, "alice");
    assert_eq!(c.cert_pem, "CERT");
    assert_eq!(c.serial.as_deref(), Some("4096"));
}

#[test]
fn client_entries_and_failures() {
    let d = client_audit(CLIENT_CREATE, "alice");
    assert_eq!(d.actor_user, "system");
    assert_eq!(d.target, "alice");
    assert_eq!(d.ip, "-");
    assert_eq!(create_failure_status("daemon: cn_exists_active"), (409, "cn_exists_active".to_string()));
    assert_eq!(create_failure_status("invalid_cn"), (422, "invalid_cn".to_string()));
    assert_eq!(create_failure_status("timeout"), (502, "daemon_error".to_string()));
    assert_eq!(client_error_message(ClientError::InvalidCn), "invalid_cn");
    assert!(contains_text("abc", ""));
    assert!(contains_text("abc", "bc"));
    assert!(!contains_text("ab", "abc"));
}

#[test]
fn revocation_status_from_crl() {
    let issued = vec![meta("4096", "alice"), meta("4097", "bob")];
    let out = list_issued_with_status(issued, Some(CRL));
    assert_eq!(out.len(), 2);
    assert!(out[0].revoked);
    assert_eq!(out[0].revoked_at.as_deref(), Some("Oct 19 08:01:01 2026 GMT"));
    assert!(!out[1].revoked);
    assert_eq!(out[1].revoked_at, None);
    let out = list_issued_with_status(vec![meta("4096", "alice")], Some("not a crl"));
    assert!(!out[0].revoked);
    let out = list_issued_with_status(vec![meta("4096", "alice")], None);
    assert!(!out[0].revoked);
}

#[test]
fn ccd_text_and_bundle_name() {
    assert_eq!(normalize_newlines("a\r\nb\rc\n\r\n"), "a\nb\rc\n\n");
    assert_eq!(normalize_newlines(""), "");
    assert_eq!(normalize_newlines("\r\r\n"), "\r\n");
    assert_eq!(bundle_filename("alice"), "alice.zip");
}

fn entry(name: &str, is_file: bool) -> CcdEntry {
    CcdEntry { name: name.to_string(), is_file, size: 3, modified: 7 }
}

#[test]
fn ccd_listing_skips_hidden_and_sorts() {
    let out = list_ccd(vec![
        entry("b", true),
        entry(".hidden", true),
        entry("a", true),
        entry("dir", false),
        entry("B", true),
        entry("ab", true),
    ]);
    let names: Vec<&str> = out.iter().map(|m| m.cn.as_str()).collect();
    assert_eq!(names, vec!["B", "a", "ab", "b"]);
    assert_eq!(out[0].size, 3);
    assert_eq!(out[0].modified, 7);
    assert!(list_ccd(Vec::new()).is_empty());
}
