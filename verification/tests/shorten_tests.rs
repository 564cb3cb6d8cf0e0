use zipline_upload::config::SxcuConfig;
use zipline_upload::shorten::{derive_shorten_endpoint, plan_shorten, shorten_reply, shorten_request_body};

fn cfg(url: &str, headers: &[(&str, &str)]) -> SxcuConfig {
    SxcuConfig {
        request_url: url.into(),
        file_form_name: "file".into(),
        headers: headers.iter().map(|(a, b)| (a.to_string(), b.to_string())).collect(),
        url_template: String::new(),
    }
}

#[test]
fn endpoint_from_upload_path() {
    assert_eq!(
        derive_shorten_endpoint("https://zip.example.com/api/upload").unwrap(),
        "https://zip.example.com/api/user/urls"
    );
    assert_eq!(
        derive_shorten_endpoint("https://zip.example.com/api/upload/").unwrap(),
        "https://zip.example.com/api/user/urls"
    );
}

#[test]
fn endpoint_from_third_slash() {
    assert_eq!(
        derive_shorten_endpoint("https://zip.example.com/other/path").unwrap(),
        "https://zip.example.com/api/user/urls"
    );
    assert_eq!(
        derive_shorten_endpoint("https://zip.example.com/").unwrap(),
        "https://zip.example.com/api/user/urls"
    );
}

#[test]
fn endpoint_missing() {
    assert_eq!(derive_shorten_endpoint("https://zip.example.com"), None);
    assert_eq!(derive_shorten_endpoint(""), None);
}

#[test]
fn body_with_and_without_vanity() {
    assert_eq!(shorten_request_body("https://a.b/c", None), r#"{"destination":"https://a.b/c"}"#);
    assert_eq!(shorten_request_body("https://a.b/c", Some("")), r#"{"destination":"https://a.b/c"}"#);
    assert_eq!(
        shorten_request_body("https://a.b/c", Some("mine")),
        r#"{"destination":"https://a.b/c","vanity":"mine"}"#
    );
}

#[test]
fn body_escapes_json() {
    assert_eq!(shorten_request_body("a\"b\\c", None), r#"{"destination":"a\"b\\c"}"#);
}

#[test]
fn plan_errors() {
    let e = plan_shorten(&cfg("https://z.example.com/api/upload", &[]), "u", None).unwrap_err();
    assert_eq!(e.0, "No authorization header in config");
    let e = plan_shorten(&cfg("nowhere", &[("authorization", "t")]), "u", None).unwrap_err();
    assert_eq!(e.0, "Could not derive shorten endpoint from: nowhere");
}

#[test]
fn plan_builds_request() {
    let r = plan_shorten(
        &cfg("https://z.example.com/api/upload", &[("Authorization", "t")]),
        "https://long/url",
        Some("v"),
    )
    .unwrap();
    assert_eq!(r.endpoint, "https://z.example.com/api/user/urls");
    assert_eq!(
        r.headers,
        vec![
            ("authorization".to_string(), "t".to_string()),
            ("content-type".to_string(), "application/json".to_string())
        ]
    );
    assert_eq!(r.body, r#"{"destination":"https://long/url","vanity":"v"}"#);
}

#[test]
fn reply_cases() {
    assert_eq!(shorten_reply(200, "OK", r#"{"url":"https://z/s/x"}"#).unwrap(), "https://z/s/x");
    assert_eq!(shorten_reply(500, "Internal Server Error", "boom").unwrap_err().0, "500 Internal Server Error: boom");
    assert_eq!(shorten_reply(200, "OK", "nope").unwrap_err().0, "Invalid JSON response: nope");
    assert_eq!(shorten_reply(200, "OK", "{}").unwrap_err().0, "Could not find url in response: {}");
}
