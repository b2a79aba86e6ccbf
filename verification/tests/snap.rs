use wt::git_ops::RunMode;
use wt::snap::{
    cleanup_worktree, do_merge_plan, hooks_notice, merge_steps, merged_notice, merging_notice,
    snap_intro, snap_notice, snap_step, MergeStage, CleanupAction, MergeStrategy, SnapAction,
    SnapEvent, SnapExitChoice,
};

#[test]
fn agent_exit_decides_whether_to_look() {
    assert_eq!(snap_step(SnapEvent::AgentExited { success: true }), SnapAction::CheckChanges);
    assert_eq!(snap_step(SnapEvent::AgentExited { success: false }), SnapAction::StopAbnormal);
}

#[test]
fn no_changes_cleans_up() {
    let e = SnapEvent::ChangesChecked { uncommitted: Some(false), commits_ahead: Some(0) };
    assert_eq!(snap_step(e), SnapAction::Cleanup);
    let e = SnapEvent::ChangesChecked { uncommitted: None, commits_ahead: None };
    assert_eq!(snap_step(e), SnapAction::Cleanup);
}

#[test]
fn only_commits_merge_without_prompt() {
    let e = SnapEvent::ChangesChecked { uncommitted: Some(false), commits_ahead: Some(2) };
    assert_eq!(snap_step(e), SnapAction::Merge);
}

#[test]
fn uncommitted_changes_prompt() {
    let e = SnapEvent::ChangesChecked { uncommitted: Some(true), commits_ahead: Some(0) };
    assert_eq!(snap_step(e), SnapAction::Prompt);
    let e = SnapEvent::ChangesChecked { uncommitted: Some(true), commits_ahead: Some(5) };
    assert_eq!(snap_step(e), SnapAction::Prompt);
}

#[test]
fn prompt_answers() {
    let e = SnapEvent::PromptAnswered { choice: Some(SnapExitChoice::Reopen) };
    assert_eq!(snap_step(e), SnapAction::RunAgent);
    let e = SnapEvent::PromptAnswered { choice: Some(SnapExitChoice::Exit) };
    assert_eq!(snap_step(e), SnapAction::StopPreserved);
    let e = SnapEvent::PromptAnswered { choice: None };
    assert_eq!(snap_step(e), SnapAction::StopPreserved);
}

fn args_of(steps: &[wt::git_ops::GitCommand]) -> Vec<Vec<String>> {
    steps.iter().map(|c| c.args.clone()).collect()
}

#[test]
fn squash_merge_steps() {
    let steps = merge_steps(MergeStrategy::Squash, "feat", "main", "Merge feat");
    assert_eq!(args_of(&steps), vec![vec!["merge", "--squash", "feat"], vec!["commit", "-m", "Merge feat"]]);
    assert!(steps.iter().all(|c| c.mode == RunMode::RunExtract));
}

#[test]
fn merge_commit_steps() {
    let steps = merge_steps(MergeStrategy::Merge, "feat", "main", "Merge feat");
    assert_eq!(args_of(&steps), vec![vec!["merge", "--no-ff", "-m", "Merge feat", "feat"]]);
}

#[test]
fn rebase_merge_steps_end_on_trunk() {
    let steps = merge_steps(MergeStrategy::Rebase, "feat", "main", "unused");
    assert_eq!(
        args_of(&steps),
        vec![
            vec!["checkout", "feat"],
            vec!["rebase", "main"],
            vec!["checkout", "main"],
            vec!["merge", "feat"],
        ]
    );
    assert_eq!(steps[0].mode, RunMode::Run);
    assert_eq!(steps[3].mode, RunMode::RunExtract);
}

#[test]
fn cleanup_removes_worktree_then_branch_then_metadata() {
    let plan = cleanup_worktree();
    assert_eq!(plan.len(), 3);
    assert_eq!(plan[0].action, CleanupAction::RemoveWorktree { force: true });
    assert!(plan[0].stop_on_error);
    assert_eq!(plan[1].action, CleanupAction::DeleteBranch { force: true });
    assert!(!plan[1].stop_on_error);
    assert_eq!(plan[2].action, CleanupAction::RemoveMetadata);
    assert!(!plan[2].stop_on_error);
}

#[test]
fn merge_stages_without_hooks() {
    assert_eq!(
        do_merge_plan(0, 0),
        vec![
            MergeStage::AnnounceMerge,
            MergeStage::GoToRepoRoot,
            MergeStage::CheckoutTrunk,
            MergeStage::ComposeMessage,
            MergeStage::MergeBranch,
            MergeStage::AnnounceMerged,
            MergeStage::Cleanup,
        ]
    );
}

#[test]
fn merge_stages_with_hooks() {
    let plan = do_merge_plan(2, 1);
    assert_eq!(plan.len(), 9);
    assert_eq!(plan[0], MergeStage::RunPreHooks);
    assert_eq!(plan[7], MergeStage::RunPostHooks);
    assert_eq!(plan[8], MergeStage::Cleanup);
    let plan = do_merge_plan(0, 3);
    assert_eq!(plan[0], MergeStage::AnnounceMerge);
    assert_eq!(plan[6], MergeStage::RunPostHooks);
}

#[test]
fn snap_texts() {
    assert_eq!(snap_intro("my-agent", "feat"), "Entering snap mode: my-agent\nWorktree: feat\n---\n");
    assert_eq!(snap_notice(SnapAction::StopAbnormal), "Agent exited abnormally. Worktree preserved.\n");
    assert_eq!(snap_notice(SnapAction::Cleanup), "No changes detected. Cleaning up...\n");
    assert_eq!(snap_notice(SnapAction::RunAgent), "Reopening agent...\n");
    assert!(snap_notice(SnapAction::StopPreserved).contains("Your changes are safe. To continue later:\n"));
    assert_eq!(snap_notice(SnapAction::Merge), "");
    assert_eq!(snap_notice(SnapAction::Prompt), "");
    assert_eq!(merging_notice("feat", "main"), "Merging feat into main...\n");
    assert_eq!(merged_notice("feat", "main"), "Merged feat into main\n");
    assert_eq!(hooks_notice(true), "Running pre-merge hooks...\n");
    assert_eq!(hooks_notice(false), "Running post-merge hooks...\n");
}

#[test]
fn a_run_with_one_reopen_runs_the_agent_twice() {
    let events = vec![
        SnapEvent::AgentExited { success: true },
        SnapEvent::ChangesChecked { uncommitted: Some(true), commits_ahead: Some(0) },
        SnapEvent::PromptAnswered { choice: Some(SnapExitChoice::Reopen) },
        SnapEvent::AgentExited { success: true },
        SnapEvent::ChangesChecked { uncommitted: Some(false), commits_ahead: Some(1) },
    ];
    let actions: Vec<SnapAction> = events.iter().map(|e| snap_step(*e)).collect();
    assert_eq!(
        actions,
        vec![
            SnapAction::CheckChanges,
            SnapAction::Prompt,
            SnapAction::RunAgent,
            SnapAction::CheckChanges,
            SnapAction::Merge,
        ]
    );
    let runs = events.iter().filter(|e| matches!(e, SnapEvent::AgentExited { .. })).count();
    assert_eq!(runs, 2);
}
