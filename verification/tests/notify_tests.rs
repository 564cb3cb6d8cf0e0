use zipline_upload::notify::{
    blocked_args, failure_args, is_image, shorten_failure_args, shorten_success_args, success_args,
};

#[test]
fn images_by_extension() {
    assert!(is_image("/a/b.PNG"));
    assert!(is_image("/a/b.heif"));
    assert!(!is_image("/a/b.txt"));
    assert!(!is_image("/a/png"));
}

#[test]
fn success_kde_with_icon() {
    assert_eq!(
        success_args("/p/shot.png", "https://u", true, true),
        vec![
            "--app-name=Zipline Upload",
            "--expire-time=5000",
            "Uploaded — shot.png",
            "<a href=\"https://u\">https://u</a>\nCopied to clipboard",
            "--icon=/p/shot.png",
        ]
    );
}

#[test]
fn success_plain_without_icon() {
    assert_eq!(
        success_args("/p/doc.pdf", "https://u", false, false),
        vec!["--app-name=Zipline Upload", "--expire-time=5000", "Uploaded — doc.pdf", "https://u"]
    );
    assert_eq!(success_args("/", "u", false, false)[2], "Uploaded — file");
}

#[test]
fn failure_and_blocked() {
    assert_eq!(
        failure_args("/p/a.txt", "boom"),
        vec![
            "--app-name=Zipline Upload",
            "--expire-time=8000",
            "--urgency=critical",
            "Upload failed — a.txt",
            "boom",
        ]
    );
    assert_eq!(
        blocked_args("/p/a.exe", "no"),
        vec!["--app-name=Zipline Upload", "--expire-time=6000", "--urgency=normal", "Blocked — a.exe", "no"]
    );
}

#[test]
fn shorten_notifications() {
    assert_eq!(
        shorten_success_args("https://s", false, true),
        vec!["--app-name=Zipline Upload", "--expire-time=5000", "Shortened URL", "https://s\nCopied to clipboard"]
    );
    assert_eq!(
        shorten_failure_args("e"),
        vec!["--app-name=Zipline Upload", "--expire-time=8000", "--urgency=critical", "Shorten failed", "e"]
    );
}
