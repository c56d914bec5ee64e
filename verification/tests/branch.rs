use rustygitprompt::branch::detached_status;
use rustygitprompt::branch::resolve_label;
use rustygitprompt::branch::str_equal;
use rustygitprompt::branch::BranchStatus;
use rustygitprompt::settings::Settings;
use rustygitprompt::settings::Shell;

#[test]
fn str_equal_compares_characters() {
    assert!(str_equal("", ""));
    assert!(str_equal("refs/heads/main", "refs/heads/main"));
    assert!(!str_equal("refs/heads/main", "refs/heads/master"));
    assert!(!str_equal("a", "ab"));
    assert!(str_equal("⇵↑↓", "⇵↑↓"));
}

#[test]
fn label_uses_configured_main_line_label_for_default_branches() {
    let settings = Settings::new_default();
    assert_eq!(resolve_label("refs/heads/master", "master", &settings), "m");
    assert_eq!(resolve_label("refs/heads/main", "main", &settings), "m");
    assert_eq!(resolve_label("refs/heads/topic", "topic", &settings), "topic");

    let mut renamed = Settings::new_default();
    renamed.master_branch_label = "trunk".to_string();
    assert_eq!(resolve_label("refs/heads/main", "main", &renamed), "trunk");
    assert_eq!(resolve_label("refs/heads/topic", "topic", &renamed), "topic");
}

#[test]
fn detached_head_skips_both_divergences() {
    let b = detached_status();
    assert_eq!(b.name, "detached");
    assert_eq!(b.local, None);
    assert_eq!(b.upstream, None);
}

#[test]
fn local_divergence_renders_behind_before_ahead() {
    let settings = Settings::new_default();
    let b = BranchStatus { name: "m".to_string(), detached: false, local: Some((2, 3)), upstream: None };
    assert_eq!(b.local(&settings), Some("↔32".to_string()));
}

#[test]
fn local_divergence_one_sided_and_quiet_cases() {
    let settings = Settings::new_default();
    let ahead = BranchStatus { name: "m".to_string(), detached: false, local: Some((4, 0)), upstream: None };
    assert_eq!(ahead.local(&settings), Some("←4".to_string()));
    let behind = BranchStatus { name: "m".to_string(), detached: false, local: Some((0, 5)), upstream: None };
    assert_eq!(behind.local(&settings), Some("→5".to_string()));
    let even = BranchStatus { name: "m".to_string(), detached: false, local: Some((0, 0)), upstream: None };
    assert_eq!(even.local(&settings), None);
    let absent = BranchStatus { name: "m".to_string(), detached: false, local: None, upstream: None };
    assert_eq!(absent.local(&settings), None);
}

#[test]
fn upstream_divergence_renders_behind_before_ahead() {
    let settings = Settings::new_default();
    let b = BranchStatus { name: "m".to_string(), detached: false, local: None, upstream: Some((2, 3)) };
    assert_eq!(b.upstream(&settings), Some("⇵32".to_string()));
    let mut colored = Settings::new_default();
    colored.shell = Shell::ANSI;
    assert_eq!(
        b.upstream(&colored),
        Some("\u{1b}[31m⇵\u{1b}[0m\u{1b}[33m3\u{1b}[0m\u{1b}[32m2\u{1b}[0m".to_string())
    );
}

#[test]
fn upstream_divergence_one_sided_quiet_and_absent_cases() {
    let settings = Settings::new_default();
    let ahead = BranchStatus { name: "m".to_string(), detached: false, local: None, upstream: Some((3, 0)) };
    assert_eq!(ahead.upstream(&settings), Some("↑3".to_string()));
    let behind = BranchStatus { name: "m".to_string(), detached: false, local: None, upstream: Some((0, 7)) };
    assert_eq!(behind.upstream(&settings), Some("↓7".to_string()));
    let even = BranchStatus { name: "m".to_string(), detached: false, local: None, upstream: Some((0, 0)) };
    assert_eq!(even.upstream(&settings), Some(String::new()));
    let absent = BranchStatus { name: "m".to_string(), detached: false, local: None, upstream: None };
    assert_eq!(absent.upstream(&settings), Some("✗".to_string()));
}
