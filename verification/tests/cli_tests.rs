use zipline_upload::cli::{kde_session, parse_args, resolve_kde, AppFlags, CliCommand};

fn args(v: &[&str]) -> Vec<String> {
    v.iter().map(|s| s.to_string()).collect()
}

#[test]
fn no_arguments_opens_the_window() {
    match parse_args(&args(&[])) {
        CliCommand::Run(a) => {
            assert_eq!(a.file, None);
            assert_eq!(a.kde_override, None);
            assert!(!a.advanced && !a.uninstall);
        }
        _ => panic!(),
    }
}

#[test]
fn flags_and_file_are_read() {
    match parse_args(&args(&["--kde", "--advanced", "a.png", "--no-kde", "b.png", "--uninstall"])) {
        CliCommand::Run(a) => {
            assert_eq!(a.file.as_deref(), Some("b.png"));
            assert_eq!(a.kde_override, Some(false));
            assert!(a.advanced);
            assert!(a.uninstall);
        }
        _ => panic!(),
    }
}

#[test]
fn single_dash_argument_is_a_file() {
    match parse_args(&args(&["-x"])) {
        CliCommand::Run(a) => assert_eq!(a.file.as_deref(), Some("-x")),
        _ => panic!(),
    }
}

#[test]
fn help_stops_reading() {
    assert!(matches!(parse_args(&args(&["--help", "--bogus"])), CliCommand::Help));
    assert!(matches!(parse_args(&args(&["a", "-h"])), CliCommand::Help));
}

#[test]
fn unknown_flag_is_reported() {
    match parse_args(&args(&["--bogus", "--help"])) {
        CliCommand::UnknownFlag(f) => assert_eq!(f, "--bogus"),
        _ => panic!(),
    }
}

#[test]
fn kde_session_detection() {
    assert!(kde_session(true, "", ""));
    assert!(kde_session(false, "plasma-KDE", ""));
    assert!(kde_session(false, "", "KDE"));
    assert!(!kde_session(false, "gnome", "GNOME"));
}

#[test]
fn kde_choice_order() {
    assert!(resolve_kde(Some(true), Some(false), || panic!("not called")));
    assert!(!resolve_kde(None, Some(false), || panic!("not called")));
    assert!(resolve_kde(None, None, || true));
    assert!(AppFlags { kde: Some(true) }.is_kde(|| panic!("not called")));
    assert!(!AppFlags { kde: None }.is_kde(|| false));
}
