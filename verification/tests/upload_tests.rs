use zipline_upload::config::SxcuConfig;
use zipline_upload::upload::{mime_of_file, plan_upload, plan_upload_with, upload_file_name, upload_reply};

fn cfg(headers: &[(&str, &str)]) -> SxcuConfig {
    SxcuConfig {
        request_url: "https://zip.example.com/api/upload".into(),
        file_form_name: "file".into(),
        headers: headers.iter().map(|(a, b)| (a.to_string(), b.to_string())).collect(),
        url_template: "{json:files[0].url}".into(),
    }
}

fn pairs(v: &[(&str, &str)]) -> Vec<(String, String)> {
    v.iter().map(|(a, b)| (a.to_string(), b.to_string())).collect()
}

#[test]
fn mime_is_guessed_from_the_extension() {
    assert_eq!(mime_of_file("/tmp/shot.png"), "image/png");
    assert_eq!(mime_of_file("/tmp/SHOT.PNG"), "image/png");
    assert_eq!(mime_of_file("/tmp/notes.txt"), "text/plain");
    assert_eq!(mime_of_file("/tmp/README"), "application/octet-stream");
    assert_eq!(mime_of_file("/tmp/x.unknownext"), "application/octet-stream");
}

#[test]
fn file_name_defaults_to_upload() {
    assert_eq!(upload_file_name("/home/u/pic.jpg"), "pic.jpg");
    assert_eq!(upload_file_name("/"), "upload");
    assert_eq!(upload_file_name("dir/.."), "upload");
}

#[test]
fn plan_needs_authorization() {
    let e = plan_upload(&cfg(&[("x", "y")]), "/tmp/a.png").unwrap_err();
    assert_eq!(e.0, "No authorization header in config");
}

#[test]
fn plan_sends_authorization_only() {
    let r = plan_upload(&cfg(&[("Authorization", "tok"), ("x-extra", "1")]), "/tmp/a.png").unwrap();
    assert_eq!(r.authorization, "tok");
    assert_eq!(r.url, "https://zip.example.com/api/upload");
    assert_eq!(r.form_name, "file");
    assert_eq!(r.file_name, "a.png");
    assert_eq!(r.mime, "image/png");
    assert!(r.headers.is_empty());
}

#[test]
fn plan_with_merges_headers() {
    let c = cfg(&[("authorization", "tok"), ("X-Zipline-Format", "date"), ("AUTHORIZATION", "dup")]);
    let extra = pairs(&[
        ("x-zipline-format", "uuid"),
        ("x-zipline-max-views", "3"),
        ("Authorization", "other"),
    ]);
    let r = plan_upload_with(&c, "/tmp/a.txt", &extra).unwrap();
    assert_eq!(r.authorization, "tok");
    assert_eq!(r.headers, pairs(&[("X-Zipline-Format", "date"), ("x-zipline-max-views", "3")]));
}

#[test]
fn plan_with_needs_authorization() {
    let e = plan_upload_with(&cfg(&[]), "/tmp/a.txt", &Vec::new()).unwrap_err();
    assert_eq!(e.0, "No authorization header in config");
}

#[test]
fn reply_gives_first_file_url() {
    let body = r#"{"files":[{"id":"1","url":"https://zip.example.com/u/abc.png"}]}"#;
    assert_eq!(upload_reply(200, "OK", body).unwrap(), "https://zip.example.com/u/abc.png");
}

#[test]
fn reply_reports_http_errors() {
    let e = upload_reply(401, "Unauthorized", "{\"error\":\"no\"}").unwrap_err();
    assert_eq!(e.0, "401 Unauthorized: {\"error\":\"no\"}");
    let e = upload_reply(199, "", "x").unwrap_err();
    assert_eq!(e.0, "199 : x");
    let e = upload_reply(300, "Multiple Choices", "x").unwrap_err();
    assert_eq!(e.0, "300 Multiple Choices: x");
}

#[test]
fn reply_reports_invalid_json() {
    let e = upload_reply(200, "OK", "<html>").unwrap_err();
    assert_eq!(e.0, "Invalid JSON response: <html>");
}

#[test]
fn reply_reports_missing_url() {
    let e = upload_reply(201, "Created", r#"{"files":[]}"#).unwrap_err();
    assert_eq!(e.0, "Could not find files[0].url in: {\"files\":[]}");
    let e = upload_reply(200, "OK", r#"{"url":"https://x"}"#).unwrap_err();
    assert_eq!(e.0, "Could not find files[0].url in: {\"url\":\"https://x\"}");
    let e = upload_reply(200, "OK", r#"{"files":[{"url":5}]}"#).unwrap_err();
    assert_eq!(e.0, "Could not find files[0].url in: {\"files\":[{\"url\":5}]}");
}
