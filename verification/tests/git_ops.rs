use wt::git_ops::{
    checkout, commit, fetch, git_dir_from, git_dir_query, is_merge_in_progress, is_rebase_in_progress, merge,
    merge_abort, merge_continue, merge_head_marker, rebase, rebase_abort, rebase_apply_marker,
    rebase_continue, rebase_merge_marker, reset_merge, RunMode,
};

#[test]
fn merge_plain_names_only_the_branch() {
    let cmd = merge("feature", false, false, None);
    assert_eq!(cmd.args, vec!["merge", "feature"]);
    assert_eq!(cmd.mode, RunMode::RunExtract);
}

#[test]
fn merge_with_every_option_orders_flags_before_branch() {
    let cmd = merge("feature", true, true, Some("Merge feature"));
    assert_eq!(cmd.args, vec!["merge", "--squash", "--no-ff", "-m", "Merge feature", "feature"]);
    assert_eq!(cmd.mode, RunMode::RunExtract);
}

#[test]
fn merge_squash_only() {
    let cmd = merge("b", true, false, None);
    assert_eq!(cmd.args, vec!["merge", "--squash", "b"]);
}

#[test]
fn merge_no_ff_with_message() {
    let cmd = merge("b", false, true, Some("msg"));
    assert_eq!(cmd.args, vec!["merge", "--no-ff", "-m", "msg", "b"]);
}

#[test]
fn single_operations_build_their_arguments() {
    assert_eq!(rebase("main").args, vec!["rebase", "main"]);
    assert_eq!(rebase("main").mode, RunMode::Run);
    assert_eq!(checkout("topic").args, vec!["checkout", "topic"]);
    assert_eq!(checkout("topic").mode, RunMode::Run);
    assert_eq!(commit("a message").args, vec!["commit", "-m", "a message"]);
    assert_eq!(commit("a message").mode, RunMode::RunExtract);
    assert_eq!(fetch().args, vec!["fetch", "--quiet"]);
    assert_eq!(fetch().mode, RunMode::IgnoreStatus);
    assert_eq!(rebase_abort().args, vec!["rebase", "--abort"]);
    assert_eq!(rebase_continue().args, vec!["rebase", "--continue"]);
    assert_eq!(merge_abort().args, vec!["merge", "--abort"]);
    assert_eq!(merge_abort().mode, RunMode::Run);
    assert_eq!(reset_merge().args, vec!["reset", "--merge"]);
    assert_eq!(reset_merge().mode, RunMode::Run);
    assert_eq!(merge_continue().args, vec!["commit", "--no-edit"]);
    assert_eq!(merge_continue().mode, RunMode::RunExtract);
    assert_eq!(git_dir_query().args, vec!["rev-parse", "--git-dir"]);
    assert_eq!(git_dir_query().mode, RunMode::IgnoreStatus);
}

#[test]
fn in_progress_markers() {
    assert_eq!(rebase_merge_marker(), "rebase-merge");
    assert_eq!(rebase_apply_marker(), "rebase-apply");
    assert_eq!(merge_head_marker(), "MERGE_HEAD");
}

#[test]
fn git_dir_only_from_a_successful_query() {
    assert_eq!(git_dir_from(true, ".git".to_string()), Some(".git".to_string()));
    assert_eq!(git_dir_from(true, String::new()), None);
    assert_eq!(git_dir_from(false, ".git".to_string()), None);
    assert_eq!(git_dir_from(false, String::new()), None);
}

#[test]
fn rebase_in_progress_needs_git_dir_and_a_marker() {
    let dir = Some(".git".to_string());
    assert!(is_rebase_in_progress(&dir, true, false));
    assert!(is_rebase_in_progress(&dir, false, true));
    assert!(!is_rebase_in_progress(&dir, false, false));
    assert!(!is_rebase_in_progress(&None, true, true));
}

#[test]
fn merge_in_progress_needs_git_dir_and_merge_head() {
    let dir = Some(".git".to_string());
    assert!(is_merge_in_progress(&dir, true));
    assert!(!is_merge_in_progress(&dir, false));
    assert!(!is_merge_in_progress(&None, true));
}

#[test]
fn outside_a_repository_nothing_is_in_progress() {
    // `git rev-parse --git-dir` fails outside a repository; stray marker files
    // in the current directory do not count.
    let dir = git_dir_from(false, String::new());
    assert!(!is_rebase_in_progress(&dir, true, true));
    assert!(!is_merge_in_progress(&dir, true));
}
