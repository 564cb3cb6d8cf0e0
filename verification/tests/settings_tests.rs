use zipline_upload::settings::{parse_extension_list, Settings};

fn pairs(v: &[(&str, &str)]) -> Vec<(String, String)> {
    v.iter().map(|(a, b)| (a.to_string(), b.to_string())).collect()
}

#[test]
fn default_settings_send_no_headers() {
    let s = Settings::default();
    assert!(s.extra_headers().is_empty());
    assert!(s.allowed_extensions.is_none());
    assert!(s.kde_notifications.is_none());
}

#[test]
fn every_setting_becomes_a_header_in_order() {
    let s = Settings {
        kde_notifications: Some(true),
        format: Some("uuid".into()),
        original_name: Some(true),
        deletes_at: Some("1d".into()),
        max_views: Some(12),
        password: Some("pw".into()),
        folder_id: Some("f1".into()),
        domain: Some("i.example.com".into()),
        image_compression_percent: Some(80),
        image_compression_type: Some("webp".into()),
        allowed_extensions: None,
    };
    assert_eq!(
        s.extra_headers(),
        pairs(&[
            ("x-zipline-format", "uuid"),
            ("x-zipline-original-name", "true"),
            ("x-zipline-deletes-at", "1d"),
            ("x-zipline-max-views", "12"),
            ("x-zipline-password", "pw"),
            ("x-zipline-folder", "f1"),
            ("x-zipline-domain", "i.example.com"),
            ("x-zipline-image-compression-percent", "80"),
            ("x-zipline-image-compression-type", "webp"),
        ])
    );
}

#[test]
fn blank_false_and_zero_settings_send_nothing() {
    let s = Settings {
        kde_notifications: None,
        format: Some("".into()),
        original_name: Some(false),
        deletes_at: Some("".into()),
        max_views: Some(0),
        password: Some("".into()),
        folder_id: Some("".into()),
        domain: Some("".into()),
        image_compression_percent: Some(0),
        image_compression_type: Some("png".into()),
        allowed_extensions: None,
    };
    assert!(s.extra_headers().is_empty());
}

#[test]
fn compression_type_needs_a_percentage_and_a_value() {
    let mut s = Settings::default();
    s.image_compression_percent = Some(50);
    assert_eq!(s.extra_headers(), pairs(&[("x-zipline-image-compression-percent", "50")]));
    s.image_compression_type = Some("jxl".into());
    assert_eq!(
        s.extra_headers(),
        pairs(&[
            ("x-zipline-image-compression-percent", "50"),
            ("x-zipline-image-compression-type", "jxl"),
        ])
    );
}

#[test]
fn no_allowlist_allows_everything() {
    let s = Settings::default();
    assert!(s.extension_allowed("/tmp/a.exe"));
    assert!(s.extension_allowed("/tmp/noext"));
    let mut e = Settings::default();
    e.allowed_extensions = Some(Vec::new());
    assert!(e.extension_allowed("/tmp/a.exe"));
}

#[test]
fn allowlist_compares_without_case() {
    let mut s = Settings::default();
    s.allowed_extensions = Some(vec!["PNG".into(), "jpg".into()]);
    assert!(s.extension_allowed("/home/u/Shot.png"));
    assert!(s.extension_allowed("/home/u/Photo.JPG"));
    assert!(!s.extension_allowed("/home/u/a.gif"));
    assert!(!s.extension_allowed("/home/u/README"));
    assert!(!s.extension_allowed("/home/u/.png"));
}

#[test]
fn empty_entry_allows_files_without_extension() {
    let mut s = Settings::default();
    s.allowed_extensions = Some(vec!["".into()]);
    assert!(s.extension_allowed("/home/u/README"));
    assert!(!s.extension_allowed("/home/u/a.txt"));
}

#[test]
fn extension_list_is_split_trimmed_and_lowered() {
    assert_eq!(parse_extension_list("png, JPG  ,gif"), vec!["png", "jpg", "gif"]);
    assert_eq!(parse_extension_list("  , ,"), Vec::<String>::new());
    assert_eq!(parse_extension_list(""), Vec::<String>::new());
    assert_eq!(parse_extension_list("\tWebP\t"), vec!["webp"]);
}
