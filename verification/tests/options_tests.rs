use zipline_upload::options::UploadOptions;
use zipline_upload::settings::Settings;

fn pairs(v: &[(&str, &str)]) -> Vec<(String, String)> {
    v.iter().map(|(a, b)| (a.to_string(), b.to_string())).collect()
}

fn full() -> Settings {
    Settings {
        kde_notifications: Some(false),
        format: Some("date".into()),
        original_name: Some(true),
        deletes_at: Some("3h".into()),
        max_views: Some(5),
        password: Some("s".into()),
        folder_id: Some("fid".into()),
        domain: Some("d.example".into()),
        image_compression_percent: Some(70),
        image_compression_type: Some("png".into()),
        allowed_extensions: Some(vec!["png".into()]),
    }
}

#[test]
fn options_show_the_settings() {
    let o = UploadOptions::from_settings(&full());
    assert_eq!(o.format, "date");
    assert!(o.original_name);
    assert_eq!(o.deletes_at, "3h");
    assert_eq!(o.deletes_at_preset, 2);
    assert_eq!(o.custom_amount, "");
    assert_eq!(o.custom_unit, 1);
    assert_eq!(o.max_views, "5");
    assert_eq!(o.image_compression_percent, "70");
    assert_eq!(o.image_compression_type, "png");
}

#[test]
fn expiry_presets_follow_the_saved_expiry() {
    for (d, p) in [("1h", 1), ("3h", 2), ("1d", 3), ("1w", 4), ("90m", 5), ("", 0)] {
        let mut s = Settings::default();
        s.deletes_at = Some(d.into());
        let o = UploadOptions::from_settings(&s);
        assert_eq!(o.deletes_at_preset, p, "{d}");
        assert_eq!(o.deletes_at, d);
    }
    let o = UploadOptions::from_settings(&Settings::default());
    assert_eq!(o.deletes_at_preset, 0);
    assert_eq!(o.format, "");
    assert_eq!(o.max_views, "");
}

#[test]
fn applying_normalizes() {
    let mut o = UploadOptions::from_settings(&Settings::default());
    o.format = "(default)".into();
    o.original_name = false;
    o.max_views = "0".into();
    o.image_compression_percent = "abc".into();
    o.password = "p".into();
    let mut s = full();
    o.apply_to_settings(&mut s);
    assert_eq!(s.format, None);
    assert_eq!(s.original_name, None);
    assert_eq!(s.deletes_at, None);
    assert_eq!(s.max_views, None);
    assert_eq!(s.password.as_deref(), Some("p"));
    assert_eq!(s.folder_id, None);
    assert_eq!(s.image_compression_percent, None);
    assert_eq!(s.kde_notifications, Some(false));
    assert_eq!(s.allowed_extensions, Some(vec!["png".to_string()]));
}

#[test]
fn applying_parses_counts() {
    let mut o = UploadOptions::from_settings(&Settings::default());
    o.max_views = "+12".into();
    o.image_compression_percent = "040".into();
    let mut s = Settings::default();
    o.apply_to_settings(&mut s);
    assert_eq!(s.max_views, Some(12));
    assert_eq!(s.image_compression_percent, Some(40));
}

#[test]
fn round_trip_keeps_normalized_settings() {
    let s = full();
    let o = UploadOptions::from_settings(&s);
    let mut t = Settings::default();
    t.kde_notifications = Some(true);
    o.apply_to_settings(&mut t);
    assert_eq!(t.format, s.format);
    assert_eq!(t.original_name, s.original_name);
    assert_eq!(t.deletes_at, s.deletes_at);
    assert_eq!(t.max_views, s.max_views);
    assert_eq!(t.password, s.password);
    assert_eq!(t.folder_id, s.folder_id);
    assert_eq!(t.domain, s.domain);
    assert_eq!(t.image_compression_percent, s.image_compression_percent);
    assert_eq!(t.image_compression_type, s.image_compression_type);
    assert_eq!(t.kde_notifications, Some(true));
    assert_eq!(t.allowed_extensions, None);
}

#[test]
fn option_headers_match_settings_headers() {
    let s = full();
    assert_eq!(UploadOptions::from_settings(&s).to_extra_headers(), s.extra_headers());
}

#[test]
fn option_headers_skip_empty_compression_type() {
    let mut o = UploadOptions::from_settings(&Settings::default());
    o.image_compression_percent = "50".into();
    assert_eq!(o.to_extra_headers(), pairs(&[("x-zipline-image-compression-percent", "50")]));
    o.image_compression_type = "webp".into();
    o.max_views = "007".into();
    o.format = "(default)".into();
    assert_eq!(
        o.to_extra_headers(),
        pairs(&[
            ("x-zipline-max-views", "7"),
            ("x-zipline-image-compression-percent", "50"),
            ("x-zipline-image-compression-type", "webp"),
        ])
    );
}

#[test]
fn option_headers_equal_saved_headers() {
    let mut o = UploadOptions::from_settings(&Settings::default());
    o.format = "(default)".into();
    o.image_compression_percent = "30".into();
    o.max_views = "0".into();
    o.password = "p".into();
    let mut s = Settings::default();
    o.apply_to_settings(&mut s);
    assert_eq!(o.to_extra_headers(), s.extra_headers());
}

#[test]
fn expiry_follows_the_preset() {
    let mut o = UploadOptions::from_settings(&Settings::default());
    for (p, d) in [(1usize, "1h"), (2, "3h"), (3, "1d"), (4, "1w"), (0, "")] {
        o.deletes_at_preset = p;
        o.sync_expiry();
        assert_eq!(o.deletes_at, d);
    }
    o.deletes_at_preset = 5;
    o.custom_amount = " 10 ".into();
    for (u, d) in [(0usize, "10m"), (1, "10h"), (2, "10d"), (3, "10w"), (4, "10y")] {
        o.custom_unit = u;
        o.sync_expiry();
        assert_eq!(o.deletes_at, d);
    }
    o.custom_amount = "  ".into();
    o.sync_expiry();
    assert_eq!(o.deletes_at, "");
    o.deletes_at = "keep".into();
    o.deletes_at_preset = 9;
    o.sync_expiry();
    assert_eq!(o.deletes_at, "keep");
}

#[test]
fn cloned_options_are_equal() {
    let o = UploadOptions::from_settings(&full());
    let c = o.clone();
    assert_eq!(format!("{:?}", o), format!("{:?}", c));
}

#[test]
fn saving_shown_options_again_changes_nothing() {
    let mut o = UploadOptions::from_settings(&Settings::default());
    o.format = "name".into();
    o.max_views = "0012".into();
    o.image_compression_percent = "5".into();
    o.domain = "".into();
    let mut once = Settings::default();
    o.apply_to_settings(&mut once);
    let mut twice = Settings::default();
    o.apply_to_settings(&mut twice);
    UploadOptions::from_settings(&once).apply_to_settings(&mut twice);
    assert_eq!(format!("{:?}", once), format!("{:?}", twice));
    assert_eq!(twice.max_views, Some(12));
}
