use rustygitprompt::changes::classify;
use rustygitprompt::changes::Changes;
use rustygitprompt::changes::PathStatus;
use rustygitprompt::settings::IconListFormat;
use rustygitprompt::settings::Settings;
use rustygitprompt::settings::Shell;

fn quiet_path() -> PathStatus {
    PathStatus {
        index_new: false,
        index_modified: false,
        index_renamed: false,
        index_deleted: false,
        wt_new: false,
        wt_modified: false,
        wt_renamed: false,
        wt_deleted: false,
    }
}

fn no_changes() -> Changes {
    Changes {
        new_files: None,
        modifications_staged: None,
        renames_staged: None,
        deletions_staged: None,
        modifications: None,
        renames: None,
        deletions: None,
        untracked: None,
    }
}

#[test]
fn classify_empty_status_leaves_all_counters_absent() {
    let c = classify(&vec![]);
    assert_eq!(c.new_files, None);
    assert_eq!(c.modifications_staged, None);
    assert_eq!(c.renames_staged, None);
    assert_eq!(c.deletions_staged, None);
    assert_eq!(c.modifications, None);
    assert_eq!(c.renames, None);
    assert_eq!(c.deletions, None);
    assert_eq!(c.untracked, None);
}

#[test]
fn classify_one_untracked_path() {
    let c = classify(&vec![PathStatus { wt_new: true, ..quiet_path() }]);
    assert_eq!(c.untracked, Some(1));
    assert_eq!(c.new_files, None);
    assert_eq!(c.modifications_staged, None);
    assert_eq!(c.renames_staged, None);
    assert_eq!(c.deletions_staged, None);
    assert_eq!(c.modifications, None);
    assert_eq!(c.renames, None);
    assert_eq!(c.deletions, None);
}

#[test]
fn classify_counts_each_category() {
    let c = classify(&vec![
        PathStatus { index_new: true, ..quiet_path() },
        PathStatus { index_modified: true, ..quiet_path() },
        PathStatus { index_renamed: true, ..quiet_path() },
        PathStatus { index_deleted: true, ..quiet_path() },
        PathStatus { wt_modified: true, ..quiet_path() },
        PathStatus { wt_renamed: true, ..quiet_path() },
        PathStatus { wt_deleted: true, ..quiet_path() },
        PathStatus { wt_new: true, ..quiet_path() },
        PathStatus { wt_new: true, ..quiet_path() },
    ]);
    assert_eq!(c.new_files, Some(1));
    assert_eq!(c.modifications_staged, Some(1));
    assert_eq!(c.renames_staged, Some(1));
    assert_eq!(c.deletions_staged, Some(1));
    assert_eq!(c.modifications, Some(1));
    assert_eq!(c.renames, Some(1));
    assert_eq!(c.deletions, Some(1));
    assert_eq!(c.untracked, Some(2));
}

#[test]
fn classify_staged_priority_is_modified_new_renamed_deleted() {
    let everything = PathStatus {
        index_new: true,
        index_modified: true,
        index_renamed: true,
        index_deleted: true,
        ..quiet_path()
    };
    let c = classify(&vec![everything]);
    assert_eq!(c.modifications_staged, Some(1));
    assert_eq!(c.new_files, None);
    assert_eq!(c.renames_staged, None);
    assert_eq!(c.deletions_staged, None);

    let c = classify(&vec![PathStatus { index_modified: false, ..everything }]);
    assert_eq!(c.new_files, Some(1));
    assert_eq!(c.renames_staged, None);
    assert_eq!(c.deletions_staged, None);

    let c = classify(&vec![PathStatus {
        index_modified: false,
        index_new: false,
        ..everything
    }]);
    assert_eq!(c.renames_staged, Some(1));
    assert_eq!(c.deletions_staged, None);
}

#[test]
fn classify_unstaged_priority_is_modified_renamed_deleted_untracked() {
    let everything = PathStatus {
        wt_new: true,
        wt_modified: true,
        wt_renamed: true,
        wt_deleted: true,
        ..quiet_path()
    };
    let c = classify(&vec![everything]);
    assert_eq!(c.modifications, Some(1));
    assert_eq!(c.renames, None);
    assert_eq!(c.deletions, None);
    assert_eq!(c.untracked, None);

    let c = classify(&vec![PathStatus { wt_modified: false, ..everything }]);
    assert_eq!(c.renames, Some(1));
    assert_eq!(c.deletions, None);
    assert_eq!(c.untracked, None);

    let c = classify(&vec![PathStatus {
        wt_modified: false,
        wt_renamed: false,
        ..everything
    }]);
    assert_eq!(c.deletions, Some(1));
    assert_eq!(c.untracked, None);
}

#[test]
fn classify_path_bumps_one_staged_and_one_unstaged_counter() {
    let c = classify(&vec![PathStatus {
        index_modified: true,
        wt_deleted: true,
        ..quiet_path()
    }]);
    assert_eq!(c.modifications_staged, Some(1));
    assert_eq!(c.deletions, Some(1));
    let total = [
        c.new_files,
        c.modifications_staged,
        c.renames_staged,
        c.deletions_staged,
        c.modifications,
        c.renames,
        c.deletions,
        c.untracked,
    ]
    .iter()
    .map(|o| o.unwrap_or(0))
    .sum::<usize>();
    assert_eq!(total, 2);
}

#[test]
fn render_digit_style_puts_count_before_glyph() {
    let settings = Settings::new_default();
    let c = Changes { untracked: Some(1), ..no_changes() };
    assert_eq!(c.render(&settings), "1U");
    let c = Changes { new_files: Some(12), modifications: Some(3), ..no_changes() };
    assert_eq!(c.render(&settings), "12N3M");
}

#[test]
fn render_superscript_style_puts_glyph_before_count() {
    let mut settings = Settings::new_default();
    settings.icon_list_format = IconListFormat::Superscript;
    let c = Changes { untracked: Some(1), ..no_changes() };
    assert_eq!(c.render(&settings), "U¹");
    let c = Changes { new_files: Some(12), modifications: Some(3), ..no_changes() };
    assert_eq!(c.render(&settings), "N¹²M³");
}

#[test]
fn render_orders_staged_before_unstaged() {
    let settings = Settings::new_default();
    let c = Changes {
        new_files: Some(1),
        modifications_staged: Some(2),
        renames_staged: Some(3),
        deletions_staged: Some(4),
        modifications: Some(5),
        renames: Some(6),
        deletions: Some(7),
        untracked: Some(8),
    };
    assert_eq!(c.render(&settings), "1N2M3R4D5M6R7D8U");
}

#[test]
fn render_decorates_glyphs_with_the_configured_scheme() {
    let mut settings = Settings::new_default();
    settings.shell = Shell::ANSI;
    let c = Changes { untracked: Some(1), ..no_changes() };
    assert_eq!(c.render(&settings), "1\u{1b}[34mU\u{1b}[0m");
    settings.shell = Shell::Zsh;
    assert_eq!(c.render(&settings), "1%F{blue}U%f");
}
