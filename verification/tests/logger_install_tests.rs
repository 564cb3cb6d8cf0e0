use zipline_upload::install::{desktop_entry, install_plan, InstallPlan};
use zipline_upload::logger::{append_to_log, failure_log_line, MAX_LOG_LINES};

#[test]
fn log_line_format() {
    assert_eq!(
        failure_log_line("2024-01-02 03:04:05", "/p/a.png", "401 Unauthorized: x"),
        "[2024-01-02 03:04:05] FAIL a.png — 401 Unauthorized: x"
    );
    assert_eq!(failure_log_line("t", "/", "e"), "[t] FAIL ? — e");
}

#[test]
fn log_keeps_recent_lines() {
    let lines: Vec<String> = (0..MAX_LOG_LINES).map(|i| format!("l{i}")).collect();
    let out = append_to_log(lines, "new".into());
    assert_eq!(out.len(), MAX_LOG_LINES);
    assert_eq!(out[0], "l1");
    assert_eq!(out[MAX_LOG_LINES - 1], "new");
    let short = append_to_log(vec!["a".into()], "b".into());
    assert_eq!(short, vec!["a", "b"]);
    assert_eq!(append_to_log(Vec::new(), "x".into()), vec!["x"]);
}

#[test]
fn install_plans() {
    assert_eq!(install_plan(false, false), InstallPlan::FullInstall);
    assert_eq!(install_plan(false, true), InstallPlan::FullInstall);
    assert_eq!(install_plan(true, false), InstallPlan::AddAdvanced);
    assert_eq!(install_plan(true, true), InstallPlan::UpToDate);
}

#[test]
fn desktop_entries_name_the_binary() {
    let e = desktop_entry("/home/u/.local/bin/zipline-upload", false);
    assert!(e.contains("Exec=/home/u/.local/bin/zipline-upload %f\n"));
    assert!(e.starts_with("[Desktop Entry]\nName=Zipline Upload\n"));
    assert!(!e.contains("{bin_path}"));
    let a = desktop_entry("/bin/z", true);
    assert!(a.contains("Exec=/bin/z --advanced %f\n"));
    assert!(a.contains("Name=Zipline Upload (Advanced)\n"));
}
