use zipline_upload::settings::Settings;
use zipline_upload::window::{blocked_message, display_url, AppState, ShortenStatus, Status, Tab, UploadResult};

fn saved() -> Settings {
    let mut s = Settings::default();
    s.format = Some("uuid".into());
    s.allowed_extensions = Some(vec!["png".into(), "jpg".into()]);
    s
}

#[test]
fn new_state_shows_saved_settings() {
    let st = AppState::new(saved(), true);
    assert!(matches!(st.status, Status::Idle));
    assert!(st.tab == Tab::Upload);
    assert!(st.kde);
    assert_eq!(st.settings_ext_text, "png, jpg");
    assert_eq!(st.per_upload.format, "uuid");
    assert_eq!(st.settings_opts.format, "uuid");
    assert!(!st.show_per_upload);
    assert!(matches!(st.shorten_status, ShortenStatus::Idle));
    let empty = AppState::new(Settings::default(), false);
    assert_eq!(empty.settings_ext_text, "");
}

#[test]
fn blocked_upload_sets_message() {
    let mut st = AppState::new(saved(), false);
    assert!(st.start_upload("/tmp/a.GIF").is_none());
    match &st.status {
        Status::Blocked(m) => assert_eq!(m, ".GIF is not in your allowed extensions list"),
        _ => panic!("not blocked"),
    }
    st.back_to_idle();
    assert!(matches!(st.status, Status::Idle));
}

#[test]
fn blocked_message_without_extension() {
    assert_eq!(blocked_message("/tmp/Makefile"), ".unknown is not in your allowed extensions list");
}

#[test]
fn allowed_upload_returns_headers() {
    let mut st = AppState::new(saved(), false);
    let h = st.start_upload("/tmp/a.PNG").unwrap();
    assert_eq!(h, vec![("x-zipline-format".to_string(), "uuid".to_string())]);
    assert!(matches!(st.status, Status::Uploading));
    st.finish_upload(UploadResult::Uploaded { url: "https://u".into(), copied: true });
    match &st.status {
        Status::Done { url, copied } => {
            assert_eq!(url, "https://u");
            assert!(*copied);
        }
        _ => panic!("not done"),
    }
    st.finish_upload(UploadResult::Failed("bad".into()));
    assert!(matches!(&st.status, Status::Error(m) if m == "bad"));
}

#[test]
fn queued_file_is_taken_only_when_idle() {
    let mut st = AppState::new(Settings::default(), false);
    st.queued = Some("/tmp/x".into());
    st.status = Status::Uploading;
    assert_eq!(st.take_queued(), None);
    assert_eq!(st.queued.as_deref(), Some("/tmp/x"));
    st.status = Status::Idle;
    assert_eq!(st.take_queued().as_deref(), Some("/tmp/x"));
    assert_eq!(st.queued, None);
}

#[test]
fn save_settings_parses_allowlist_and_resets_per_upload() {
    let mut st = AppState::new(saved(), false);
    st.settings_ext_text = "WEBP, ,gif".into();
    st.settings_opts.format = "(default)".into();
    st.settings_opts.max_views = "9".into();
    st.per_upload.password = "temp".into();
    st.save_settings();
    assert_eq!(st.saved_settings.allowed_extensions, Some(vec!["webp".to_string(), "gif".to_string()]));
    assert_eq!(st.saved_settings.format, None);
    assert_eq!(st.saved_settings.max_views, Some(9));
    assert_eq!(st.per_upload.max_views, "9");
    assert_eq!(st.per_upload.password, "");
    st.settings_ext_text = "  ".into();
    st.save_settings();
    assert_eq!(st.saved_settings.allowed_extensions, None);
}

#[test]
fn upload_another_resets_options() {
    let mut st = AppState::new(saved(), false);
    st.per_upload.format = "gfycat".into();
    st.show_per_upload = true;
    st.status = Status::Done { url: "u".into(), copied: false };
    st.upload_another();
    assert!(matches!(st.status, Status::Idle));
    assert_eq!(st.per_upload.format, "uuid");
    assert!(!st.show_per_upload);
}

#[test]
fn shorten_flow() {
    let mut st = AppState::new(Settings::default(), false);
    assert!(!st.can_shorten());
    st.shorten_url = "https://long".into();
    assert!(st.can_shorten());
    let (d, v) = st.begin_shorten();
    assert_eq!(d, "https://long");
    assert_eq!(v, None);
    assert!(matches!(st.shorten_status, ShortenStatus::Working));
    assert!(!st.can_shorten());
    st.finish_shorten(Err("no".into()));
    assert!(matches!(&st.shorten_status, ShortenStatus::Error(u) if u == "no"));
    assert!(st.can_shorten());
    st.shorten_vanity = "me".into();
    let (_, v) = st.begin_shorten();
    assert_eq!(v.as_deref(), Some("me"));
    st.finish_shorten(Ok("https://s".into()));
    assert!(matches!(&st.shorten_status, ShortenStatus::Done(u) if u == "https://s"));
    assert!(!st.can_shorten());
    st.shorten_another();
    assert!(matches!(st.shorten_status, ShortenStatus::Idle));
    assert_eq!(st.shorten_url, "");
    assert_eq!(st.shorten_vanity, "");
    assert!(!st.can_shorten());
}

#[test]
fn one_upload_at_a_time() {
    let mut st = AppState::new(Settings::default(), false);
    assert!(st.can_upload());
    st.drop_file("/tmp/a.png".into());
    let f = st.take_queued().unwrap();
    assert!(st.start_upload(&f).is_some());
    assert!(!st.can_upload());
    st.drop_file("/tmp/b.png".into());
    st.drop_file("/tmp/c.png".into());
    assert_eq!(st.take_queued(), None);
    assert_eq!(st.queued.as_deref(), Some("/tmp/c.png"));
    st.finish_upload(UploadResult::Failed("x".into()));
    assert!(!st.can_upload());
    st.back_to_idle();
    assert_eq!(st.take_queued().as_deref(), Some("/tmp/c.png"));
}

#[test]
fn settings_tab_fills_notification_style() {
    let mut st = AppState::new(Settings::default(), true);
    st.fill_notification_style();
    assert_eq!(st.saved_settings.kde_notifications, Some(true));
    let mut s = Settings::default();
    s.kde_notifications = Some(false);
    s.format = Some("date".into());
    let mut st = AppState::new(s, true);
    st.fill_notification_style();
    assert_eq!(st.saved_settings.kde_notifications, Some(false));
    assert_eq!(st.saved_settings.format.as_deref(), Some("date"));
}

#[test]
fn long_urls_are_cut_for_display() {
    let short = "https://z.example.com/u/abc.png";
    assert_eq!(display_url(short), short);
    let long = format!("https://z.example.com/u/{}", "a".repeat(60));
    assert_eq!(display_url(&long), format!("{}…", &long[..50]));
    let exact = "x".repeat(50);
    assert_eq!(display_url(&exact), exact);
}

#[test]
fn upload_step_starts_only_from_idle() {
    let mut st = AppState::new(saved(), false);
    let (file, headers) = st.upload_step(None, Some("/tmp/a.png".into())).unwrap();
    assert_eq!(file, "/tmp/a.png");
    assert_eq!(headers, vec![("x-zipline-format".to_string(), "uuid".to_string())]);
    assert!(matches!(st.status, Status::Uploading));
    // A file dropped while uploading waits.
    assert!(st.upload_step(None, Some("/tmp/b.jpg".into())).is_none());
    assert!(matches!(st.status, Status::Uploading));
    assert_eq!(st.queued.as_deref(), Some("/tmp/b.jpg"));
    // The step that delivers the result starts nothing.
    assert!(st.upload_step(Some(UploadResult::Uploaded { url: "u".into(), copied: false }), None).is_none());
    assert!(matches!(st.status, Status::Done { .. }));
    st.upload_another();
    let (file, _) = st.upload_step(None, None).unwrap();
    assert_eq!(file, "/tmp/b.jpg");
    assert_eq!(st.queued, None);
}

#[test]
fn upload_step_blocks_refused_files() {
    let mut st = AppState::new(saved(), false);
    assert!(st.upload_step(None, Some("/tmp/a.exe".into())).is_none());
    assert!(matches!(&st.status, Status::Blocked(m) if m == ".exe is not in your allowed extensions list"));
    assert_eq!(st.queued, None);
}
