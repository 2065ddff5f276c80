use milk::display::branch_line;
use milk::display::entry_style;
use milk::display::kind_name;
use milk::display::line_style;
use milk::display::lists_branch;
use milk::display::option_display;
use milk::display::shows_committer;
use milk::display::status_label;
use milk::display::Change;
use milk::display::EntryStyle;
use milk::display::FileStatus;
use milk::store::ObjectKind;
use milk::display::StatusLabel;
use milk::display::Tint;

fn clean() -> FileStatus {
    FileStatus {
        index_new: false,
        index_modified: false,
        index_deleted: false,
        index_renamed: false,
        index_typechange: false,
        wt_new: false,
        wt_modified: false,
        wt_deleted: false,
        wt_renamed: false,
        wt_typechange: false,
        ignored: false,
        conflicted: false,
    }
}

#[test]
fn status_of_clean_file() {
    assert_eq!(
        status_label(clean()),
        StatusLabel::Changes { index: Change::Unchanged, worktree: Change::Unchanged }
    );
}

#[test]
fn status_ignored_wins() {
    let s = FileStatus { ignored: true, conflicted: true, index_new: true, ..clean() };
    assert_eq!(status_label(s), StatusLabel::Ignored);
    let s = FileStatus { conflicted: true, wt_new: true, ..clean() };
    assert_eq!(status_label(s), StatusLabel::Conflicted);
}

#[test]
fn status_first_change_per_side() {
    let s = FileStatus { index_modified: true, index_deleted: true, wt_renamed: true, wt_typechange: true, ..clean() };
    assert_eq!(
        status_label(s),
        StatusLabel::Changes { index: Change::Modified, worktree: Change::Renamed }
    );
    let s = FileStatus { index_typechange: true, wt_new: true, wt_modified: true, ..clean() };
    assert_eq!(
        status_label(s),
        StatusLabel::Changes { index: Change::Typechange, worktree: Change::New }
    );
}

#[test]
fn change_words_and_tints() {
    assert_eq!(Change::New.word(), "new");
    assert_eq!(Change::Modified.word(), "mod");
    assert_eq!(Change::Deleted.word(), "del");
    assert_eq!(Change::Renamed.word(), "ren");
    assert_eq!(Change::Typechange.word(), "typ");
    assert_eq!(Change::Unchanged.word(), "   ");
    assert_eq!(Change::New.tint(false), Tint::Cyan);
    assert_eq!(Change::New.tint(true), Tint::BrightCyan);
    assert_eq!(Change::Deleted.tint(true), Tint::BrightRed);
    assert_eq!(Change::Typechange.tint(false), Tint::Blue);
    assert_eq!(Change::Unchanged.tint(true), Tint::Plain);
}

#[test]
fn object_kind_names() {
    assert_eq!(kind_name(Some(ObjectKind::Blob)), "blob");
    assert_eq!(kind_name(Some(ObjectKind::Tree)), "tree");
    assert_eq!(kind_name(Some(ObjectKind::Commit)), "commit");
    assert_eq!(kind_name(Some(ObjectKind::Tag)), "tag");
    assert_eq!(kind_name(None), "unknown");
}

#[test]
fn tree_entry_styles() {
    assert_eq!(entry_style(Some(ObjectKind::Tree)), EntryStyle { sigil: None, slash: true, tint: Tint::Blue });
    assert_eq!(entry_style(Some(ObjectKind::Commit)), EntryStyle { sigil: Some('@'), slash: false, tint: Tint::BrightRed });
    assert_eq!(entry_style(Some(ObjectKind::Tag)), EntryStyle { sigil: Some('#'), slash: false, tint: Tint::BrightCyan });
    assert_eq!(entry_style(Some(ObjectKind::Blob)), EntryStyle { sigil: None, slash: false, tint: Tint::Plain });
    assert_eq!(entry_style(None), EntryStyle { sigil: None, slash: false, tint: Tint::Plain });
}

#[test]
fn patch_line_styles() {
    assert_eq!(line_style('+').marker, Some('+'));
    assert_eq!(line_style('+').tint, Tint::Green);
    assert_eq!(line_style('-').marker, Some('-'));
    assert_eq!(line_style('-').tint, Tint::Red);
    assert_eq!(line_style(' ').marker, Some(' '));
    assert_eq!(line_style(' ').tint, Tint::White);
    assert_eq!(line_style('F').marker, None);
    assert_eq!(line_style('F').tint, Tint::Cyan);
}

#[test]
fn branch_listing() {
    assert!(lists_branch(false, false));
    assert!(!lists_branch(true, false));
    assert!(lists_branch(true, true));
    assert_eq!(branch_line("main", true), "* main");
    assert_eq!(branch_line("dev", false), "  dev");
    assert_eq!(branch_line("", false), "  ");
}

#[test]
fn committer_shown_when_different() {
    assert!(!shows_committer("a", "a@x", "a", "a@x"));
    assert!(shows_committer("a", "a@x", "b", "a@x"));
    assert!(shows_committer("a", "a@x", "a", "b@x"));
}

#[test]
fn prompt_options() {
    assert_eq!(option_display("Yn?"), "Y/n/?");
    assert_eq!(option_display("Y"), "Y");
    assert_eq!(option_display(""), "");
    assert_eq!(option_display("ñé"), "ñ/é");
}
