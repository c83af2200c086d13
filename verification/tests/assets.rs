use modbus_client::assets::{asset_path, serve_asset, AssetReply};
use modbus_client::text::{decimal_string, trim_leading_slashes};

#[test]
fn requested_file_is_served_with_its_type() {
    assert_eq!(asset_path("/assets/app.js"), "assets/app.js");
    assert_eq!(
        serve_asset("/assets/app.js", true, true),
        AssetReply::Found { path: "assets/app.js".to_string(), content_type: "text/javascript".to_string() }
    );
}

#[test]
fn unknown_paths_fall_back_to_index() {
    assert_eq!(
        serve_asset("/connections/c1", false, true),
        AssetReply::Found { path: "index.html".to_string(), content_type: "text/html".to_string() }
    );
    assert_eq!(asset_path("/"), asset_path(""));
}

#[test]
fn nothing_built_means_missing() {
    assert_eq!(serve_asset("/index.html", false, false), AssetReply::Missing);
}

#[test]
fn extensionless_files_are_octet_streams() {
    assert_eq!(asset_path("//LICENSE"), "LICENSE");
    assert_eq!(
        serve_asset("//LICENSE", true, false),
        AssetReply::Found { path: "LICENSE".to_string(), content_type: "application/octet-stream".to_string() }
    );
}

#[test]
fn text_helpers() {
    assert_eq!(decimal_string(0), "0");
    assert_eq!(decimal_string(247), "247");
    assert_eq!(decimal_string(u64::MAX), u64::MAX.to_string());
    assert_eq!(trim_leading_slashes("///a/b"), "a/b");
    assert_eq!(trim_leading_slashes("a/"), "a/");
}
