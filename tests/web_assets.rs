use ovpn_admin::web::{asset_headers, asset_name_of, is_confined};

#[test]
fn empty_path_names_the_index() {
    assert_eq!(asset_name_of(""), "index.html");
    assert_eq!(asset_name_of("app.js"), "app.js");
}

#[test]
fn assets_get_type_and_cache_policy() {
    let h = asset_headers("assets/app.js");
    assert!(h.content_type.contains("javascript"));
    assert_eq!(h.cache_control.as_deref(), Some("public, max-age=31536000, immutable"));
    let h = asset_headers("index.html");
    assert_eq!(h.content_type, "text/html");
    assert_eq!(h.cache_control, None);
    assert_eq!(asset_headers("blob").content_type, "application/octet-stream");
}

#[test]
fn paths_stay_inside_the_asset_directory() {
    assert!(is_confined("assets/app.js"));
    assert!(is_confined("a.b/c"));
    assert!(!is_confined("../secret"));
    assert!(!is_confined("a/../../b"));
    assert!(!is_confined("/etc/passwd"));
    assert!(!is_confined("a\\b"));
}
