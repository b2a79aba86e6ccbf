use wt::exec::{
    command_line, no_worktrees_message, select_managed, summary_line, tally, worktree_header,
    CommandOutcome, ExecArgs, WorktreeEntry,
};

fn comps(p: &str) -> Vec<String> {
    let mut v = vec!["/".to_string()];
    v.extend(p.split('/').filter(|s| !s.is_empty()).map(|s| s.to_string()));
    v
}

fn entry(p: &str, b: Option<&str>) -> WorktreeEntry {
    WorktreeEntry { path: comps(p), branch: b.map(|s| s.to_string()) }
}

fn sample() -> Vec<WorktreeEntry> {
    vec![
        entry("/repo", Some("main")),
        entry("/home/u/.wt/proj/exec-filter-a", Some("exec-filter-a")),
        entry("/home/u/.wt/proj/exec-filter-b", Some("exec-filter-b")),
        entry("/home/u/.wt/proj/detached", None),
        entry("/home/u/.wt/projx/other", Some("other")),
    ]
}

#[test]
fn selects_worktrees_inside_the_project_dir() {
    let picked = select_managed(&sample(), &comps("/home/u/.wt/proj"), &None);
    assert_eq!(picked, vec![1, 2, 3]);
}

#[test]
fn branch_filter_keeps_listed_branches_only() {
    let filter = Some(vec!["exec-filter-a".to_string()]);
    let picked = select_managed(&sample(), &comps("/home/u/.wt/proj"), &filter);
    assert_eq!(picked, vec![1]);
    let filter = Some(vec!["exec-filter-b".to_string(), "main".to_string()]);
    let picked = select_managed(&sample(), &comps("/home/u/.wt/proj"), &filter);
    assert_eq!(picked, vec![2]);
}

#[test]
fn no_managed_worktrees() {
    let picked = select_managed(&sample(), &comps("/elsewhere"), &None);
    assert!(picked.is_empty());
}

#[test]
fn command_words_joined_by_spaces() {
    let args = ExecArgs { command: vec!["echo".to_string(), "hello-from-exec".to_string()], branches: None };
    assert_eq!(command_line(&args), "echo hello-from-exec");
}

#[test]
fn headers_name_the_branch() {
    assert_eq!(worktree_header(&Some("exec-filter-b".to_string())), "==> exec-filter-b <==");
    assert_eq!(worktree_header(&None), "==> (detached) <==");
}

#[test]
fn tally_counts_each_worktree_once() {
    let t = tally(&vec![CommandOutcome::Succeeded, CommandOutcome::Failed, CommandOutcome::NotStarted]);
    assert_eq!(t.succeeded, 1);
    assert_eq!(t.failed, 2);
    let t = tally(&vec![]);
    assert_eq!(t.succeeded + t.failed, 0);
}

#[test]
fn summary_line_reports_counts() {
    let t = tally(&vec![CommandOutcome::Succeeded]);
    assert_eq!(summary_line(1, &t), "Executed in 1 worktree(s): 1 succeeded, 0 failed");
    let t = tally(&vec![CommandOutcome::Failed]);
    assert!(summary_line(1, &t).contains("1 failed"));
}

#[test]
fn no_worktrees_text() {
    assert_eq!(no_worktrees_message(), "No worktrees for this project.");
}
