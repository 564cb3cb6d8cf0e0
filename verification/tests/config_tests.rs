use zipline_upload::config::{display_config_path, SxcuConfig};

fn cfg(headers: &[(&str, &str)]) -> SxcuConfig {
    SxcuConfig {
        request_url: "https://zip.example.com/api/upload".into(),
        file_form_name: "file".into(),
        headers: headers.iter().map(|(a, b)| (a.to_string(), b.to_string())).collect(),
        url_template: String::new(),
    }
}

#[test]
fn authorization_prefers_lowercase_key() {
    let c = cfg(&[("Authorization", "upper"), ("authorization", "lower")]);
    assert_eq!(c.authorization(), Some("lower"));
}

#[test]
fn authorization_falls_back_to_capitalised_key() {
    let c = cfg(&[("x-other", "1"), ("Authorization", "upper")]);
    assert_eq!(c.authorization(), Some("upper"));
}

#[test]
fn authorization_missing() {
    let c = cfg(&[("AUTHORIZATION", "shout"), ("x", "y")]);
    assert_eq!(c.authorization(), None);
    assert_eq!(cfg(&[]).authorization(), None);
}

#[test]
fn display_path_cases() {
    assert_eq!(display_config_path("/h/.config/z/config.sxcu", false, None), "(not set)");
    assert_eq!(
        display_config_path("/h/.config/z/config.sxcu", true, Some(".config/z/config.sxcu")),
        "~/.config/z/config.sxcu"
    );
    assert_eq!(display_config_path("/etc/z/config.sxcu", true, None), "/etc/z/config.sxcu");
}
