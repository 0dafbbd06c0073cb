use ovpn_admin::cookies::get_cookie;
use ovpn_admin::text::{find_char, hex_upper, is_digit_run, is_header_safe, parse_decimal_u128, same_text, text_le_exec, trim_text};

#[test]
fn trim_strips_both_ends() {
    assert_eq!(trim_text("  a b \t"), "a b");
    assert_eq!(trim_text(" \u{3000}x\u{A0}"), "x");
    assert_eq!(trim_text("   "), "");
    assert_eq!(trim_text(""), "");
}

#[test]
fn find_char_gives_first_or_length() {
    assert_eq!(find_char("a=b=c", '='), 1);
    assert_eq!(find_char("abc", '='), 3);
}

#[test]
fn same_text_compares_characters() {
    assert!(same_text("abc", "abc"));
    assert!(!same_text("abc", "abd"));
    assert!(!same_text("abc", "ab"));
}

#[test]
fn digit_runs() {
    assert!(is_digit_run("0123"));
    assert!(!is_digit_run(""));
    assert!(!is_digit_run("12a"));
    assert!(!is_digit_run("+12"));
}

#[test]
fn decimal_parse_follows_u128_from_str() {
    assert_eq!(parse_decimal_u128("4096"), Some(4096));
    assert_eq!(parse_decimal_u128("+7"), Some(7));
    assert_eq!(parse_decimal_u128("+"), None);
    assert_eq!(parse_decimal_u128(""), None);
    assert_eq!(parse_decimal_u128("-1"), None);
    assert_eq!(parse_decimal_u128("340282366920938463463374607431768211455"), Some(u128::MAX));
    assert_eq!(parse_decimal_u128("340282366920938463463374607431768211456"), None);
    assert_eq!(parse_decimal_u128("1 2"), None);
}

#[test]
fn hex_is_upper_case() {
    assert_eq!(hex_upper(0), "0");
    assert_eq!(hex_upper(255), "FF");
    assert_eq!(hex_upper(4096), "1000");
    assert_eq!(hex_upper(u128::MAX), "FFFFFFFFFFFFFFFFFFFFFFFFFFFFFFFF");
}

#[test]
fn header_safety_follows_http() {
    assert!(is_header_safe("a=b; Path=/\tx"));
    assert!(is_header_safe("caf\u{e9}"));
    assert!(!is_header_safe("a\nb"));
    assert!(!is_header_safe("a\u{7f}"));
}

#[test]
fn cookie_lookup_finds_named_part() {
    let h = Some("a=1; sid=XYZ; b=2");
    assert_eq!(get_cookie(h, "sid"), Some("XYZ".to_string()));
    assert_eq!(get_cookie(h, "a"), Some("1".to_string()));
    assert_eq!(get_cookie(h, "c"), None);
}

#[test]
fn cookie_lookup_edge_cases() {
    assert_eq!(get_cookie(None, "sid"), None);
    assert_eq!(get_cookie(Some(""), "sid"), None);
    assert_eq!(get_cookie(Some("  sid=v=w  ;"), "sid"), Some("v=w".to_string()));
    assert_eq!(get_cookie(Some("sid"), "sid"), None);
    assert_eq!(get_cookie(Some("sid=first; sid=second"), "sid"), Some("first".to_string()));
    assert_eq!(get_cookie(Some("sid="), "sid"), Some(String::new()));
    assert_eq!(get_cookie(Some("SID=x"), "sid"), None);
}

#[test]
fn text_order_is_by_characters() {
    assert!(text_le_exec("a", "b"));
    assert!(text_le_exec("a", "a"));
    assert!(text_le_exec("", "a"));
    assert!(text_le_exec("ab", "b"));
    assert!(!text_le_exec("b", "ab"));
    assert!(text_le_exec("Z", "a"));
    assert!(!text_le_exec("abc", "ab"));
}
