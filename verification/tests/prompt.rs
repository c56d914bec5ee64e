use rustygitprompt::branch::detached_status;
use rustygitprompt::branch::BranchStatus;
use rustygitprompt::changes::Changes;
use rustygitprompt::prompt::render_prompt;
use rustygitprompt::settings::IconListFormat;
use rustygitprompt::settings::Settings;

fn no_changes() -> Changes {
    Changes {
        new_files: None,
        modifications_staged: None,
        renames_staged: None,
        deletions_staged: None,
        modifications: None,
        renames: None,
        deletions: None,
        untracked: None,
    }
}

#[test]
fn quiet_tree_renders_space_then_label_only() {
    let settings = Settings::new_default();
    let branch = BranchStatus {
        name: "m".to_string(),
        detached: false,
        local: Some((0, 0)),
        upstream: Some((0, 0)),
    };
    assert_eq!(render_prompt(&settings, &no_changes(), &branch), " m");
}

#[test]
fn ahead_of_upstream_ends_with_symbol_count_space_label() {
    let settings = Settings::new_default();
    let branch = BranchStatus {
        name: "m".to_string(),
        detached: false,
        local: Some((0, 0)),
        upstream: Some((3, 0)),
    };
    let out = render_prompt(&settings, &no_changes(), &branch);
    assert_eq!(out, " ↑3 m");
    assert!(out.ends_with("↑3 m"));
}

#[test]
fn untracked_file_in_unborn_repository_renders_count_and_glyph() {
    let settings = Settings::new_default();
    let changes = Changes { untracked: Some(1), ..no_changes() };
    let branch = detached_status();
    let out = render_prompt(&settings, &changes, &branch);
    assert!(out.starts_with(" 1U"));
    assert_eq!(out, " 1U detached");
}

#[test]
fn detached_head_keeps_divergence_sections_empty() {
    let settings = Settings::new_default();
    let branch = detached_status();
    assert_eq!(render_prompt(&settings, &no_changes(), &branch), " detached");
}

#[test]
fn rendering_twice_gives_identical_strings() {
    let mut settings = Settings::new_default();
    settings.icon_list_format = IconListFormat::Subscript;
    let changes = Changes { modifications: Some(2), ..no_changes() };
    let branch = BranchStatus {
        name: "topic".to_string(),
        detached: false,
        local: Some((1, 4)),
        upstream: None,
    };
    let first = render_prompt(&settings, &changes, &branch);
    let second = render_prompt(&settings, &changes, &branch);
    assert_eq!(first, second);
    assert_eq!(first, " M₂↔₄₁✗ topic");
}
