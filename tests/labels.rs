use milk::error::MilkError;
use milk::label::parse_label;
use milk::label::Query;
use milk::target::plan_diff;
use milk::target::same_text;
use milk::target::DiffTarget;

fn refname(s: &str) -> Query {
    Query::RefName(s.to_string())
}

#[test]
fn empty_label_is_head() {
    assert_eq!(parse_label(""), refname("HEAD"));
}

#[test]
fn lone_at_is_head() {
    assert_eq!(parse_label("@"), refname("HEAD"));
    assert_eq!(parse_label("@"), parse_label("/HEAD"));
    assert_eq!(parse_label(""), parse_label("/HEAD"));
}

#[test]
fn hash_names_a_tag() {
    assert_eq!(parse_label("#v1.0"), refname("refs/tags/v1.0"));
    assert_eq!(parse_label("#"), refname("refs/tags/"));
}

#[test]
fn at_names_a_branch() {
    assert_eq!(parse_label("@main"), refname("refs/heads/main"));
    assert_eq!(parse_label("@feature/x"), refname("refs/heads/feature/x"));
}

#[test]
fn slash_is_transparent() {
    assert_eq!(parse_label("/refs/heads/x"), refname("refs/heads/x"));
    assert_eq!(parse_label("/WORK"), refname("WORK"));
    assert_eq!(parse_label("/"), refname(""));
}

#[test]
fn bare_label_is_short_id() {
    assert_eq!(parse_label("abc123"), Query::ShortId("abc123".to_string()));
    assert_eq!(parse_label("main"), Query::ShortId("main".to_string()));
    assert_eq!(parse_label("é#"), Query::ShortId("é#".to_string()));
}

#[test]
fn sentinels_classify_as_pseudo_targets() {
    assert!(matches!(DiffTarget::from_str("/WORK"), DiffTarget::WorkingTree));
    assert!(matches!(DiffTarget::from_str("/INDEX"), DiffTarget::Index));
    assert!(matches!(DiffTarget::from_str("/WORKS"), DiffTarget::Name("/WORKS")));
    assert!(matches!(DiffTarget::from_str("/index"), DiffTarget::Name("/index")));
    assert!(matches!(DiffTarget::from_str(""), DiffTarget::Name("")));
    assert!(matches!(DiffTarget::from_str("@main"), DiffTarget::Name("@main")));
}

#[test]
fn same_text_compares_characters() {
    assert!(same_text("abc", "abc"));
    assert!(!same_text("abc", "abd"));
    assert!(!same_text("abc", "ab"));
    assert!(same_text("", ""));
}

#[test]
fn identical_pseudo_targets_are_degenerate() {
    assert!(matches!(
        plan_diff(DiffTarget::WorkingTree, DiffTarget::WorkingTree),
        Err(MilkError::DegenerateComparison)
    ));
    assert!(matches!(
        plan_diff(DiffTarget::Index, DiffTarget::Index),
        Err(MilkError::DegenerateComparison)
    ));
}

#[test]
fn plan_table() {
    let n = DiffTarget::Name("@a");
    let m = DiffTarget::Name("@b");
    let w = DiffTarget::WorkingTree;
    let i = DiffTarget::Index;
    let p = plan_diff(n, w).unwrap();
    assert!(matches!((p.from, p.to, p.reversed), (DiffTarget::Name("@a"), DiffTarget::WorkingTree, false)));
    let p = plan_diff(n, m).unwrap();
    assert!(matches!((p.from, p.to, p.reversed), (DiffTarget::Name("@a"), DiffTarget::Name("@b"), false)));
    let p = plan_diff(n, i).unwrap();
    assert!(matches!((p.from, p.to, p.reversed), (DiffTarget::Name("@a"), DiffTarget::Index, false)));
    let p = plan_diff(i, w).unwrap();
    assert!(matches!((p.from, p.to, p.reversed), (DiffTarget::Index, DiffTarget::WorkingTree, false)));
    let p = plan_diff(i, m).unwrap();
    assert!(matches!((p.from, p.to, p.reversed), (DiffTarget::Name("@b"), DiffTarget::Index, true)));
    let p = plan_diff(w, m).unwrap();
    assert!(matches!((p.from, p.to, p.reversed), (DiffTarget::Name("@b"), DiffTarget::WorkingTree, true)));
    let p = plan_diff(w, i).unwrap();
    assert!(matches!((p.from, p.to, p.reversed), (DiffTarget::Index, DiffTarget::WorkingTree, true)));
}

#[test]
fn index_name_plans_mirror_each_other() {
    let b = DiffTarget::Name("#v1");
    let p = plan_diff(DiffTarget::Index, b).unwrap();
    let q = plan_diff(b, DiffTarget::Index).unwrap();
    assert!(matches!((p.from, p.to), (DiffTarget::Name("#v1"), DiffTarget::Index)));
    assert!(matches!((q.from, q.to), (DiffTarget::Name("#v1"), DiffTarget::Index)));
    assert_ne!(p.reversed, q.reversed);
}
