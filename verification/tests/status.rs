use wt::status::{build_status, in_managed_worktree, render_status, DiffStat, StatusInfo};
use wt::trunk::{choose_branch, detected_or_main, TrunkChoice};

fn info(ahead: usize, uncommitted: usize, ins: usize, del: usize) -> StatusInfo {
    build_status(
        "main".to_string(),
        false,
        "main".to_string(),
        Some(ahead),
        Some(uncommitted),
        Some(DiffStat { insertions: ins, deletions: del }),
        None,
        false,
        false,
    )
}

#[test]
fn build_status_adds_committed_and_uncommitted_diffs() {
    let i = build_status(
        "feat".to_string(),
        true,
        "main".to_string(),
        Some(3),
        Some(2),
        Some(DiffStat { insertions: 10, deletions: 4 }),
        Some(DiffStat { insertions: 5, deletions: 1 }),
        true,
        false,
    );
    assert_eq!(i.branch, "feat");
    assert!(i.in_worktree);
    assert_eq!(i.trunk, "main");
    assert_eq!(i.commits_ahead, 3);
    assert_eq!(i.uncommitted, 2);
    assert_eq!(i.insertions, 15);
    assert_eq!(i.deletions, 5);
    assert!(i.merge_in_progress);
    assert!(!i.rebase_in_progress);
}

#[test]
fn build_status_counts_missing_answers_as_zero() {
    let i = build_status("b".to_string(), false, "t".to_string(), None, None, None, None, false, true);
    assert_eq!(i.commits_ahead, 0);
    assert_eq!(i.uncommitted, 0);
    assert_eq!(i.insertions, 0);
    assert_eq!(i.deletions, 0);
    assert!(i.rebase_in_progress);
}

#[test]
fn status_text_of_a_clean_repo() {
    let text = render_status(&info(0, 0, 0, 0));
    assert_eq!(
        text,
        "Branch:      main\nLocation:    main repository\nTrunk:       main\nAhead:       0 commits\nUncommitted: 0 files\nDiff:        -\n"
    );
    assert!(text.contains("0 commits"));
    assert!(text.contains("0 files"));
    assert!(text.contains("Diff:        -"));
}

#[test]
fn status_text_uses_singular_for_one() {
    let text = render_status(&info(1, 1, 0, 0));
    assert!(text.contains("Ahead:       1 commit\n"));
    assert!(text.contains("Uncommitted: 1 file\n"));
}

#[test]
fn status_text_shows_diff_totals() {
    let text = render_status(&info(2, 3, 12, 0));
    assert!(text.contains("Ahead:       2 commits\n"));
    assert!(text.contains("Uncommitted: 3 files\n"));
    assert!(text.contains("Diff:        +12 -0\n"));
}

#[test]
fn status_text_in_worktree_with_warnings() {
    let i = build_status(
        "status-wt-test".to_string(),
        true,
        "main".to_string(),
        None,
        None,
        None,
        Some(DiffStat { insertions: 0, deletions: 3 }),
        true,
        true,
    );
    let text = render_status(&i);
    assert_eq!(
        text,
        "Branch:      status-wt-test\nLocation:    managed worktree\nTrunk:       main\nAhead:       0 commits\nUncommitted: 0 files\nDiff:        +0 -3\n\nWARNING: Merge in progress\n\nWARNING: Rebase in progress\n"
    );
}

#[test]
fn in_worktree_needs_both_paths() {
    let cwd = Some(vec!["/".to_string(), "wt".to_string(), "p".to_string(), "b".to_string()]);
    let dir = Some(vec!["/".to_string(), "wt".to_string(), "p".to_string()]);
    assert!(in_managed_worktree(&cwd, &dir));
    assert!(!in_managed_worktree(&None, &dir));
    assert!(!in_managed_worktree(&cwd, &None));
    assert!(!in_managed_worktree(&dir, &cwd));
}

#[test]
fn trunk_choice_prefers_explicit_then_configured() {
    assert!(matches!(choose_branch(Some("x".to_string()), Some("y".to_string())), TrunkChoice::Known(b) if b == "x"));
    assert!(matches!(choose_branch(None, Some("y".to_string())), TrunkChoice::Known(b) if b == "y"));
    assert!(matches!(choose_branch(None, None), TrunkChoice::Detect));
    assert_eq!(detected_or_main(Some("master".to_string())), "master");
    assert_eq!(detected_or_main(None), "main");
}
