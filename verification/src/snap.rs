//! Snap mode: run an agent in a fresh worktree, then clean up, merge, or ask,
//! depending on what the agent left behind.

use vstd::prelude::*;
use crate::git_ops::{checkout, commit, merge, rebase, spec_merge_args, GitCommand, RunMode};

verus! {

/// How a finished branch is brought into the trunk.
#[derive(PartialEq, Eq, Structural, Clone, Copy, Debug)]
pub enum MergeStrategy {
    /// All commits squashed into one commit on the trunk.
    Squash,
    /// A merge commit (never a fast-forward).
    Merge,
    /// The branch rebased onto the trunk, then fast-forwarded.
    Rebase,
}

/// The user's answer when snap mode asks what to do with uncommitted changes.
#[derive(PartialEq, Eq, Structural, Clone, Copy, Debug)]
pub enum SnapExitChoice {
    /// Run the agent again.
    Reopen,
    /// Leave snap mode, keeping the worktree.
    Exit,
}

/// What snap mode learns at each stop of its loop.
#[derive(PartialEq, Eq, Structural, Clone, Copy, Debug)]
pub enum SnapEvent {
    /// The agent exited, successfully or not.
    AgentExited { success: bool },
    /// The worktree was inspected: whether it holds uncommitted changes and how
    /// many commits it is ahead of the trunk (`None`: git could not tell).
    ChangesChecked { uncommitted: Option<bool>, commits_ahead: Option<usize> },
    /// The user answered the prompt (`None`: the prompt failed).
    PromptAnswered { choice: Option<SnapExitChoice> },
}

/// What snap mode does next.
#[derive(PartialEq, Eq, Structural, Clone, Copy, Debug)]
pub enum SnapAction {
    /// Inspect the worktree for changes.
    CheckChanges,
    /// Stop: the agent exited abnormally; the worktree is kept.
    StopAbnormal,
    /// Nothing changed: remove the worktree and its branch, then stop.
    Cleanup,
    /// Only committed changes: merge them into the trunk without asking, clean up, stop.
    Merge,
    /// Uncommitted changes: ask the user.
    Prompt,
    /// Run the agent again.
    RunAgent,
    /// Stop, keeping the worktree and its changes.
    StopPreserved,
}

/// The inspection is known to have found uncommitted changes.
pub open spec fn known_dirty(uncommitted: Option<bool>) -> bool {
    uncommitted == Some(true)
}

/// The branch is known to be ahead of the trunk.
pub open spec fn known_ahead(commits_ahead: Option<usize>) -> bool {
    exists|n: usize| n > 0 && commits_ahead == Some(n)
}

/// The decision of snap mode on `event`: after a successful agent run it looks
/// at the worktree, after an abnormal one it stops; known uncommitted changes
/// lead to the prompt, else known commits ahead to the merge, else to the
/// cleanup (a question git could not answer counts as "no"); the answer Reopen
/// reruns the agent, any other answer or a failed prompt stops.
pub open spec fn spec_snap_step(event: SnapEvent) -> SnapAction {
    match event {
        SnapEvent::AgentExited { success } => if success {
            SnapAction::CheckChanges
        } else {
            SnapAction::StopAbnormal
        },
        SnapEvent::ChangesChecked { uncommitted, commits_ahead } => if known_dirty(uncommitted) {
            SnapAction::Prompt
        } else if known_ahead(commits_ahead) {
            SnapAction::Merge
        } else {
            SnapAction::Cleanup
        },
        SnapEvent::PromptAnswered { choice } => if choice == Some(SnapExitChoice::Reopen) {
            SnapAction::RunAgent
        } else {
            SnapAction::StopPreserved
        },
    }
}

/// The decision of snap mode on `event`.
pub fn snap_step(event: SnapEvent) -> (a: SnapAction)
    ensures
        a == spec_snap_step(event),
        event == (SnapEvent::AgentExited { success: true }) ==> a == SnapAction::CheckChanges,
        event == (SnapEvent::AgentExited { success: false }) ==> a == SnapAction::StopAbnormal,
        event matches SnapEvent::ChangesChecked { uncommitted, .. } ==> (known_dirty(uncommitted)
            <==> a == SnapAction::Prompt),
        event matches SnapEvent::ChangesChecked { uncommitted, commits_ahead } ==> (!known_dirty(uncommitted)
            && known_ahead(commits_ahead) <==> a == SnapAction::Merge),
        event matches SnapEvent::ChangesChecked { uncommitted, commits_ahead } ==> (!known_dirty(uncommitted)
            && !known_ahead(commits_ahead) <==> a == SnapAction::Cleanup),
        event matches SnapEvent::PromptAnswered { choice } ==> (choice == Some(SnapExitChoice::Reopen)
            <==> a == SnapAction::RunAgent),
        event matches SnapEvent::PromptAnswered { choice } ==> (choice != Some(SnapExitChoice::Reopen)
            <==> a == SnapAction::StopPreserved),
{
    match event {
        SnapEvent::AgentExited { success } => if success {
            SnapAction::CheckChanges
        } else {
            SnapAction::StopAbnormal
        },
        SnapEvent::ChangesChecked { uncommitted, commits_ahead } => {
            let dirty = match uncommitted {
                Some(d) => d,
                None => false,
            };
            let ahead = match commits_ahead {
                Some(n) => n > 0,
                None => false,
            };
            if dirty {
                SnapAction::Prompt
            } else if ahead {
                SnapAction::Merge
            } else {
                SnapAction::Cleanup
            }
        },
        SnapEvent::PromptAnswered { choice } => match choice {
            Some(SnapExitChoice::Reopen) => SnapAction::RunAgent,
            _ => SnapAction::StopPreserved,
        },
    }
}

/// Snap mode never throws away work that it knows of: a worktree known to hold
/// uncommitted changes is neither cleaned up nor merged, the user is asked; and
/// a worktree known to be ahead of the trunk is never cleaned up.
pub proof fn lemma_snap_keeps_known_work(uncommitted: Option<bool>, commits_ahead: Option<usize>)
    ensures
        uncommitted == Some(true) ==> spec_snap_step(
            SnapEvent::ChangesChecked { uncommitted, commits_ahead },
        ) == SnapAction::Prompt,
        (exists|n: usize| n > 0 && commits_ahead == Some(n)) ==> spec_snap_step(
            SnapEvent::ChangesChecked { uncommitted, commits_ahead },
        ) != SnapAction::Cleanup,
{
}

/// Snap mode stops only when the agent exited abnormally, after cleaning up or
/// merging, or when the user leaves; every other decision keeps the loop going.
pub proof fn lemma_snap_stops_only_on_purpose(event: SnapEvent)
    ensures
        spec_snap_step(event) == SnapAction::StopAbnormal <==> event == (SnapEvent::AgentExited { success: false }),
        spec_snap_step(event) == SnapAction::RunAgent <==> event == (SnapEvent::PromptAnswered {
            choice: Some(SnapExitChoice::Reopen),
        }),
{
}

/// What snap mode does before the `i`-th event of `events`: at first it runs
/// the agent, then it follows its decision on the previous event.
pub open spec fn action_before(events: Seq<SnapEvent>, i: int) -> SnapAction {
    if i == 0 {
        SnapAction::RunAgent
    } else {
        spec_snap_step(events[i - 1])
    }
}

/// `event` is what `action` yields: an agent run ends with the agent's exit, an
/// inspection with its findings, a prompt with its answer; a stop yields nothing.
pub open spec fn yields(action: SnapAction, event: SnapEvent) -> bool {
    match action {
        SnapAction::RunAgent => event is AgentExited,
        SnapAction::CheckChanges => event is ChangesChecked,
        SnapAction::Prompt => event is PromptAnswered,
        _ => false,
    }
}

/// `events` is what one run of snap mode can learn, in order.
pub open spec fn is_snap_run(events: Seq<SnapEvent>) -> bool {
    forall|i: int| 0 <= i < events.len() ==> #[trigger] yields(action_before(events, i), events[i])
}

/// The decision ends snap mode.
pub open spec fn ends_snap(a: SnapAction) -> bool {
    ||| a == SnapAction::StopAbnormal
    ||| a == SnapAction::Cleanup
    ||| a == SnapAction::Merge
    ||| a == SnapAction::StopPreserved
}

/// The inspection found uncommitted changes.
pub open spec fn found_uncommitted(e: SnapEvent) -> bool {
    e matches SnapEvent::ChangesChecked { uncommitted: Some(true), .. }
}

/// The event is the user's answer to the prompt.
pub open spec fn is_answer(e: SnapEvent) -> bool {
    e is PromptAnswered
}

/// A run that reached its end.
pub open spec fn is_finished_snap_run(events: Seq<SnapEvent>) -> bool {
    &&& is_snap_run(events)
    &&& events.len() > 0
    &&& ends_snap(spec_snap_step(events.last()))
}

/// How many times the agent ran (each run ends with its exit).
pub open spec fn agent_runs(events: Seq<SnapEvent>) -> nat
    decreases events.len(),
{
    if events.len() == 0 {
        0
    } else {
        agent_runs(events.drop_last()) + if events.last() is AgentExited {
            1nat
        } else {
            0nat
        }
    }
}

/// How many times the user asked to reopen the agent.
pub open spec fn reopens(events: Seq<SnapEvent>) -> nat
    decreases events.len(),
{
    if events.len() == 0 {
        0
    } else {
        reopens(events.drop_last()) + if events.last() == (SnapEvent::PromptAnswered {
            choice: Some(SnapExitChoice::Reopen),
        }) {
            1nat
        } else {
            0nat
        }
    }
}

proof fn lemma_run_prefix(events: Seq<SnapEvent>, n: int)
    requires
        is_snap_run(events),
        0 <= n <= events.len(),
    ensures
        is_snap_run(events.take(n)),
{
    let p = events.take(n);
    assert forall|i: int| 0 <= i < p.len() implies #[trigger] yields(action_before(p, i), p[i]) by {
        assert(action_before(p, i) == action_before(events, i));
        assert(yields(action_before(events, i), events[i]));
    }
}

proof fn lemma_agent_runs_count(events: Seq<SnapEvent>)
    requires
        is_snap_run(events),
        events.len() > 0,
    ensures
        agent_runs(events) == 1 + reopens(events.drop_last()),
    decreases events.len(),
{
    let n = events.len() - 1;
    assert(yields(action_before(events, n), events[n]));
    if n == 0 {
        assert(events.drop_last() =~= Seq::<SnapEvent>::empty());
        assert(agent_runs(events.drop_last()) == 0);
    } else {
        let prefix = events.drop_last();
        lemma_run_prefix(events, n);
        assert(events.take(n) =~= prefix);
        lemma_agent_runs_count(prefix);
        assert(prefix.drop_last() =~= events.take(n - 1));
        assert(prefix.last() == events[n - 1]);
        assert(events.last() == events[n]);
    }
}

/// Over a whole run of snap mode: only the last decision can end it, so the
/// worktree is cleaned up or merged at most once, and only at the end; it is
/// never cleaned up or merged on an inspection that found uncommitted changes;
/// the user is asked only right after uncommitted changes were found; and the
/// agent runs once, plus once more for each time the user asked to reopen it.
pub proof fn lemma_snap_run(events: Seq<SnapEvent>)
    requires
        is_snap_run(events),
    ensures
        forall|i: int| 0 <= i < events.len() && ends_snap(#[trigger] spec_snap_step(events[i])) ==> i == events.len() - 1,
        forall|i: int| 0 <= i < events.len() && found_uncommitted(#[trigger] events[i])
            ==> spec_snap_step(events[i]) == SnapAction::Prompt,
        forall|i: int| 0 <= i < events.len() && is_answer(#[trigger] events[i])
            ==> i > 0 && found_uncommitted(events[i - 1]),
        events.len() > 0 ==> agent_runs(events) == 1 + reopens(events.drop_last()),
        is_finished_snap_run(events) ==> agent_runs(events) == 1 + reopens(events),
{
    assert forall|i: int| 0 <= i < events.len() && ends_snap(#[trigger] spec_snap_step(events[i])) implies i
        == events.len() - 1 by {
        if i < events.len() - 1 {
            assert(yields(action_before(events, i + 1), events[i + 1]));
        }
    }
    assert forall|i: int| 0 <= i < events.len() && is_answer(#[trigger] events[i]) implies i > 0
        && found_uncommitted(events[i - 1]) by {
        assert(yields(action_before(events, i), events[i]));
    }
    if events.len() > 0 {
        lemma_agent_runs_count(events);
        if is_finished_snap_run(events) {
            assert(events.last() != (SnapEvent::PromptAnswered { choice: Some(SnapExitChoice::Reopen) }));
        }
    }
}

/// One step of removing a finished worktree.
#[derive(PartialEq, Eq, Structural, Clone, Copy, Debug)]
pub enum CleanupAction {
    /// Remove the worktree (forcibly when `force`).
    RemoveWorktree { force: bool },
    /// Delete the worktree's branch (forcibly when `force`).
    DeleteBranch { force: bool },
    /// Remove the worktree's metadata from the project's worktree directory;
    /// skipped when the project cannot be identified.
    RemoveMetadata,
}

/// A step of the cleanup, and whether its failure ends the cleanup with an error
/// (otherwise the failure is ignored).
#[derive(PartialEq, Eq, Structural, Clone, Copy, Debug)]
pub struct CleanupStep {
    pub action: CleanupAction,
    pub stop_on_error: bool,
}

pub open spec fn spec_cleanup_plan() -> Seq<CleanupStep> {
    seq![
        CleanupStep { action: CleanupAction::RemoveWorktree { force: true }, stop_on_error: true },
        CleanupStep { action: CleanupAction::DeleteBranch { force: true }, stop_on_error: false },
        CleanupStep { action: CleanupAction::RemoveMetadata, stop_on_error: false },
    ]
}

/// How a finished worktree is removed, in order: the worktree is removed by
/// force (its failure is the cleanup's error), the branch is deleted by force
/// (its failure is ignored), and the metadata is removed.
pub fn cleanup_worktree() -> (plan: Vec<CleanupStep>)
    ensures
        plan@ == spec_cleanup_plan(),
{
    let plan = vec![
        CleanupStep { action: CleanupAction::RemoveWorktree { force: true }, stop_on_error: true },
        CleanupStep { action: CleanupAction::DeleteBranch { force: true }, stop_on_error: false },
        CleanupStep { action: CleanupAction::RemoveMetadata, stop_on_error: false },
    ];
    assert(plan@ =~= spec_cleanup_plan());
    plan
}

/// A git invocation as its arguments and mode.
pub open spec fn command_view(c: GitCommand) -> (Seq<Seq<char>>, RunMode) {
    (c.arg_view(), c.mode)
}

/// The invocations that bring `branch` into `trunk` under `strategy`, once the
/// trunk is checked out; `message` is the message of the resulting commit.
pub open spec fn spec_merge_steps(
    strategy: MergeStrategy,
    branch: Seq<char>,
    trunk: Seq<char>,
    message: Seq<char>,
) -> Seq<(Seq<Seq<char>>, RunMode)> {
    match strategy {
        MergeStrategy::Squash => seq![
            (spec_merge_args(branch, true, false, None), RunMode::RunExtract),
            (seq!["commit"@, "-m"@, message], RunMode::RunExtract),
        ],
        MergeStrategy::Merge => seq![
            (spec_merge_args(branch, false, true, Some(message)), RunMode::RunExtract),
        ],
        MergeStrategy::Rebase => seq![
            (seq!["checkout"@, branch], RunMode::Run),
            (seq!["rebase"@, trunk], RunMode::Run),
            (seq!["checkout"@, trunk], RunMode::Run),
            (spec_merge_args(branch, false, false, None), RunMode::RunExtract),
        ],
    }
}

/// The invocations that bring `branch` into `trunk` under `strategy`, to be run
/// in order once the trunk is checked out: a squash merge then a commit with
/// `message`; a merge commit with `message`; or a rebase of the branch onto the
/// trunk followed by a fast-forward merge.
pub fn merge_steps(strategy: MergeStrategy, branch: &str, trunk: &str, message: &str) -> (steps: Vec<GitCommand>)
    ensures
        steps@.map_values(|c: GitCommand| command_view(c)) == spec_merge_steps(strategy, branch@, trunk@, message@),
{
    let mut steps: Vec<GitCommand> = Vec::new();
    match strategy {
        MergeStrategy::Squash => {
            steps.push(merge(branch, true, false, None));
            steps.push(commit(message));
        },
        MergeStrategy::Merge => {
            steps.push(merge(branch, false, true, Some(message)));
        },
        MergeStrategy::Rebase => {
            steps.push(checkout(branch));
            steps.push(rebase(trunk));
            steps.push(checkout(trunk));
            steps.push(merge(branch, false, false, None));
        },
    }
    assert(steps@.map_values(|c: GitCommand| command_view(c)) =~= spec_merge_steps(strategy, branch@, trunk@, message@));
    steps
}

/// The invocation switches branches.
pub open spec fn is_checkout(c: (Seq<Seq<char>>, RunMode)) -> bool {
    c.0.len() >= 1 && c.0[0] == "checkout"@
}

/// The invocation merges `branch`.
pub open spec fn merges_branch(c: (Seq<Seq<char>>, RunMode), branch: Seq<char>) -> bool {
    c.0.len() >= 2 && c.0[0] == "merge"@ && c.0.last() == branch
}

/// The whole merge of snap mode: the trunk is checked out, then the steps of the strategy run.
pub open spec fn spec_merge_plan(
    strategy: MergeStrategy,
    branch: Seq<char>,
    trunk: Seq<char>,
    message: Seq<char>,
) -> Seq<(Seq<Seq<char>>, RunMode)> {
    seq![(seq!["checkout"@, trunk], RunMode::Run)] + spec_merge_steps(strategy, branch, trunk, message)
}

/// One stage of the merge of snap mode. Each stage's failure ends the merge
/// with that failure, except the log that the message is composed from, which
/// counts as empty when git cannot give it.
#[derive(PartialEq, Eq, Structural, Clone, Copy, Debug)]
pub enum MergeStage {
    /// Announce and run the pre-merge hooks, in the worktree.
    RunPreHooks,
    /// Announce the merge (see `merging_notice`).
    AnnounceMerge,
    /// Find the repository's root and make it the current directory.
    GoToRepoRoot,
    /// Check out the trunk (`git_ops::checkout`).
    CheckoutTrunk,
    /// Compose the commit message from the log of the branch's commits.
    ComposeMessage,
    /// Run the invocations of `merge_steps` with the composed message.
    MergeBranch,
    /// Announce the merge as done (see `merged_notice`).
    AnnounceMerged,
    /// Announce and run the post-merge hooks, in the repository's root.
    RunPostHooks,
    /// Remove the worktree and its branch (see `cleanup_worktree`).
    Cleanup,
}

pub open spec fn spec_do_merge_plan(pre_merge_hooks: nat, post_merge_hooks: nat) -> Seq<MergeStage> {
    (if pre_merge_hooks > 0 {
        seq![MergeStage::RunPreHooks]
    } else {
        Seq::empty()
    }) + seq![
        MergeStage::AnnounceMerge,
        MergeStage::GoToRepoRoot,
        MergeStage::CheckoutTrunk,
        MergeStage::ComposeMessage,
        MergeStage::MergeBranch,
        MergeStage::AnnounceMerged,
    ] + (if post_merge_hooks > 0 {
        seq![MergeStage::RunPostHooks]
    } else {
        Seq::empty()
    }) + seq![MergeStage::Cleanup]
}

/// The stages of the merge of snap mode, in order, given how many pre- and
/// post-merge hooks are configured: hooks run only when there are some, the
/// pre-merge hooks first, the post-merge hooks after the merge, and the
/// worktree is removed last.
pub fn do_merge_plan(pre_merge_hooks: usize, post_merge_hooks: usize) -> (plan: Vec<MergeStage>)
    ensures
        plan@ == spec_do_merge_plan(pre_merge_hooks as nat, post_merge_hooks as nat),
{
    let mut plan: Vec<MergeStage> = Vec::new();
    if pre_merge_hooks > 0 {
        plan.push(MergeStage::RunPreHooks);
    }
    plan.push(MergeStage::AnnounceMerge);
    plan.push(MergeStage::GoToRepoRoot);
    plan.push(MergeStage::CheckoutTrunk);
    plan.push(MergeStage::ComposeMessage);
    plan.push(MergeStage::MergeBranch);
    plan.push(MergeStage::AnnounceMerged);
    if post_merge_hooks > 0 {
        plan.push(MergeStage::RunPostHooks);
    }
    plan.push(MergeStage::Cleanup);
    assert(plan@ =~= spec_do_merge_plan(pre_merge_hooks as nat, post_merge_hooks as nat));
    plan
}

/// The hooks of the merge run exactly when some are configured: with
/// pre-merge hooks the merge starts by running them, and without them no stage
/// runs them; with post-merge hooks they run right before the cleanup, after the
/// branch was merged, and without them no stage runs them; the cleanup comes
/// last and the branch is merged exactly once.
pub proof fn lemma_hooks_run_when_configured(pre_merge_hooks: nat, post_merge_hooks: nat)
    ensures
        ({
            let plan = spec_do_merge_plan(pre_merge_hooks, post_merge_hooks);
            &&& pre_merge_hooks > 0 <==> plan[0] == MergeStage::RunPreHooks
            &&& pre_merge_hooks > 0 <==> plan.contains(MergeStage::RunPreHooks)
            &&& post_merge_hooks > 0 <==> plan[plan.len() - 2] == MergeStage::RunPostHooks
            &&& post_merge_hooks > 0 <==> plan.contains(MergeStage::RunPostHooks)
            &&& plan.last() == MergeStage::Cleanup
            &&& forall|i: int, j: int| 0 <= i < plan.len() && 0 <= j < plan.len()
                && plan[i] == MergeStage::RunPreHooks && plan[j] == MergeStage::MergeBranch ==> i < j
            &&& forall|i: int, j: int| 0 <= i < plan.len() && 0 <= j < plan.len()
                && plan[i] == MergeStage::MergeBranch && plan[j] == MergeStage::RunPostHooks ==> i < j
            &&& exists|i: int| 0 <= i < plan.len() && plan[i] == MergeStage::MergeBranch
            &&& forall|i: int, j: int| 0 <= i < plan.len() && 0 <= j < plan.len()
                && plan[i] == MergeStage::MergeBranch && plan[j] == MergeStage::MergeBranch ==> i == j
        }),
{
    let plan = spec_do_merge_plan(pre_merge_hooks, post_merge_hooks);
    let mid = seq![
        MergeStage::AnnounceMerge,
        MergeStage::GoToRepoRoot,
        MergeStage::CheckoutTrunk,
        MergeStage::ComposeMessage,
        MergeStage::MergeBranch,
        MergeStage::AnnounceMerged,
    ];
    if pre_merge_hooks > 0 {
        if post_merge_hooks > 0 {
            assert(plan =~= seq![MergeStage::RunPreHooks] + mid + seq![MergeStage::RunPostHooks, MergeStage::Cleanup]);
            assert(plan[0] == MergeStage::RunPreHooks);
            assert(plan[7] == MergeStage::RunPostHooks);
            assert(plan[5] == MergeStage::MergeBranch);
        } else {
            assert(plan =~= seq![MergeStage::RunPreHooks] + mid + seq![MergeStage::Cleanup]);
            assert(plan[0] == MergeStage::RunPreHooks);
            assert(plan[5] == MergeStage::MergeBranch);
        }
    } else {
        if post_merge_hooks > 0 {
            assert(plan =~= mid + seq![MergeStage::RunPostHooks, MergeStage::Cleanup]);
            assert(plan[6] == MergeStage::RunPostHooks);
            assert(plan[4] == MergeStage::MergeBranch);
        } else {
            assert(plan =~= mid + seq![MergeStage::Cleanup]);
            assert(plan[4] == MergeStage::MergeBranch);
        }
    }
}

/// The git invocations that a stage makes.
pub open spec fn stage_commands(
    stage: MergeStage,
    strategy: MergeStrategy,
    branch: Seq<char>,
    trunk: Seq<char>,
    message: Seq<char>,
) -> Seq<(Seq<Seq<char>>, RunMode)> {
    match stage {
        MergeStage::CheckoutTrunk => seq![(seq!["checkout"@, trunk], RunMode::Run)],
        MergeStage::MergeBranch => spec_merge_steps(strategy, branch, trunk, message),
        _ => Seq::empty(),
    }
}

/// The git invocations that the stages make, in order.
pub open spec fn issued_commands(
    stages: Seq<MergeStage>,
    strategy: MergeStrategy,
    branch: Seq<char>,
    trunk: Seq<char>,
    message: Seq<char>,
) -> Seq<(Seq<Seq<char>>, RunMode)>
    decreases stages.len(),
{
    if stages.len() == 0 {
        Seq::empty()
    } else {
        issued_commands(stages.drop_last(), strategy, branch, trunk, message) + stage_commands(
            stages.last(),
            strategy,
            branch,
            trunk,
            message,
        )
    }
}

proof fn lemma_issued_append(
    a: Seq<MergeStage>,
    b: Seq<MergeStage>,
    strategy: MergeStrategy,
    branch: Seq<char>,
    trunk: Seq<char>,
    message: Seq<char>,
)
    ensures
        issued_commands(a + b, strategy, branch, trunk, message) == issued_commands(a, strategy, branch, trunk, message)
            + issued_commands(b, strategy, branch, trunk, message),
    decreases b.len(),
{
    if b.len() == 0 {
        assert(a + b =~= a);
        assert(issued_commands(a, strategy, branch, trunk, message) + Seq::empty() =~= issued_commands(
            a,
            strategy,
            branch,
            trunk,
            message,
        ));
    } else {
        assert((a + b).drop_last() =~= a + b.drop_last());
        assert((a + b).last() == b.last());
        lemma_issued_append(a, b.drop_last(), strategy, branch, trunk, message);
        assert(issued_commands(a + b, strategy, branch, trunk, message) =~= issued_commands(a, strategy, branch, trunk, message)
            + issued_commands(b, strategy, branch, trunk, message));
    }
}

/// The stages that make no git invocation, run in a row, make none.
proof fn lemma_issued_quiet(
    stages: Seq<MergeStage>,
    strategy: MergeStrategy,
    branch: Seq<char>,
    trunk: Seq<char>,
    message: Seq<char>,
)
    requires
        forall|i: int| 0 <= i < stages.len() ==> stages[i] != MergeStage::CheckoutTrunk && stages[i]
            != MergeStage::MergeBranch,
    ensures
        issued_commands(stages, strategy, branch, trunk, message) == Seq::<(Seq<Seq<char>>, RunMode)>::empty(),
    decreases stages.len(),
{
    if stages.len() > 0 {
        lemma_issued_quiet(stages.drop_last(), strategy, branch, trunk, message);
        assert(issued_commands(stages, strategy, branch, trunk, message) =~= Seq::<(Seq<Seq<char>>, RunMode)>::empty());
    }
}

/// Whatever hooks are configured, the git invocations of the merge of snap mode
/// are exactly those of `spec_merge_plan`: the trunk checked out, then the
/// steps of the strategy.
pub proof fn lemma_do_merge_issues_merge_plan(
    pre_merge_hooks: nat,
    post_merge_hooks: nat,
    strategy: MergeStrategy,
    branch: Seq<char>,
    trunk: Seq<char>,
    message: Seq<char>,
)
    ensures
        issued_commands(spec_do_merge_plan(pre_merge_hooks, post_merge_hooks), strategy, branch, trunk, message)
            == spec_merge_plan(strategy, branch, trunk, message),
{
    let pre: Seq<MergeStage> = if pre_merge_hooks > 0 {
        seq![MergeStage::RunPreHooks]
    } else {
        Seq::empty()
    };
    let lead: Seq<MergeStage> = seq![MergeStage::AnnounceMerge, MergeStage::GoToRepoRoot];
    let checkout: Seq<MergeStage> = seq![MergeStage::CheckoutTrunk];
    let compose: Seq<MergeStage> = seq![MergeStage::ComposeMessage];
    let merge_stage: Seq<MergeStage> = seq![MergeStage::MergeBranch];
    let post: Seq<MergeStage> = if post_merge_hooks > 0 {
        seq![MergeStage::AnnounceMerged, MergeStage::RunPostHooks, MergeStage::Cleanup]
    } else {
        seq![MergeStage::AnnounceMerged, MergeStage::Cleanup]
    };
    assert(spec_do_merge_plan(pre_merge_hooks, post_merge_hooks) =~= pre + lead + checkout + compose + merge_stage + post);
    lemma_issued_append(pre + lead + checkout + compose + merge_stage, post, strategy, branch, trunk, message);
    lemma_issued_append(pre + lead + checkout + compose, merge_stage, strategy, branch, trunk, message);
    lemma_issued_append(pre + lead + checkout, compose, strategy, branch, trunk, message);
    lemma_issued_append(pre + lead, checkout, strategy, branch, trunk, message);
    lemma_issued_append(pre, lead, strategy, branch, trunk, message);
    lemma_issued_quiet(pre, strategy, branch, trunk, message);
    lemma_issued_quiet(lead, strategy, branch, trunk, message);
    lemma_issued_quiet(compose, strategy, branch, trunk, message);
    lemma_issued_quiet(post, strategy, branch, trunk, message);
    assert(checkout.drop_last() =~= Seq::<MergeStage>::empty());
    assert(merge_stage.drop_last() =~= Seq::<MergeStage>::empty());
    assert(checkout.last() == MergeStage::CheckoutTrunk);
    assert(merge_stage.last() == MergeStage::MergeBranch);
    assert(issued_commands(Seq::<MergeStage>::empty(), strategy, branch, trunk, message)
        == Seq::<(Seq<Seq<char>>, RunMode)>::empty());
    assert(issued_commands(checkout, strategy, branch, trunk, message) =~= seq![(seq!["checkout"@, trunk], RunMode::Run)]);
    assert(issued_commands(merge_stage, strategy, branch, trunk, message) =~= spec_merge_steps(strategy, branch, trunk, message));
    assert(issued_commands(spec_do_merge_plan(pre_merge_hooks, post_merge_hooks), strategy, branch, trunk, message)
        =~= spec_merge_plan(strategy, branch, trunk, message));
}

/// Whatever the strategy, the merge of snap mode merges `branch`, and it does so
/// into the trunk: the last branch switch of the plan is to the trunk, and the
/// merge of `branch` comes after it.
pub proof fn lemma_merge_lands_on_trunk(
    strategy: MergeStrategy,
    branch: Seq<char>,
    trunk: Seq<char>,
    message: Seq<char>,
)
    ensures
        ({
            let plan = spec_merge_plan(strategy, branch, trunk, message);
            exists|i: int, k: int|
                0 <= i < k < plan.len() && #[trigger] plan[i].0 == seq!["checkout"@, trunk]
                    && (forall|j: int| i < j < plan.len() ==> !is_checkout(#[trigger] plan[j]))
                    && merges_branch(#[trigger] plan[k], branch)
        }),
{
    reveal_strlit("checkout");
    reveal_strlit("merge");
    reveal_strlit("commit");
    reveal_strlit("rebase");
    let plan = spec_merge_plan(strategy, branch, trunk, message);
    match strategy {
        MergeStrategy::Squash => {
            assert(plan[1].0[0] == "merge"@);
            assert(plan[2].0[0] == "commit"@);
            assert(forall|j: int| 0 < j < plan.len() ==> !is_checkout(#[trigger] plan[j]));
            assert(merges_branch(plan[1], branch));
            assert(plan[0].0 == seq!["checkout"@, trunk]);
        },
        MergeStrategy::Merge => {
            assert(plan[1].0[0] == "merge"@);
            assert(forall|j: int| 0 < j < plan.len() ==> !is_checkout(#[trigger] plan[j]));
            assert(merges_branch(plan[1], branch));
            assert(plan[0].0 == seq!["checkout"@, trunk]);
        },
        MergeStrategy::Rebase => {
            assert(plan[4].0[0] == "merge"@);
            assert(forall|j: int| 3 < j < plan.len() ==> !is_checkout(#[trigger] plan[j]));
            assert(merges_branch(plan[4], branch));
            assert(plan[3].0 == seq!["checkout"@, trunk]);
        },
    }
}

/// What snap mode prints on stderr when it starts.
pub open spec fn spec_intro(cmd: Seq<char>, branch: Seq<char>) -> Seq<char> {
    "Entering snap mode: "@ + cmd + "\n"@ + "Worktree: "@ + branch + "\n"@ + "---\n"@
}

/// What snap mode prints on stderr when it starts: the agent's command and the
/// worktree's branch.
pub fn snap_intro(cmd: &str, branch: &str) -> (s: String)
    ensures
        s@ == spec_intro(cmd@, branch@),
{
    let mut s = String::from_str("Entering snap mode: ");
    s.append(cmd);
    s.append("\n");
    s.append("Worktree: ");
    s.append(branch);
    s.append("\n");
    s.append("---\n");
    assert(s@ =~= spec_intro(cmd@, branch@));
    s
}

/// What snap mode prints on stderr when it takes `action` on an event.
pub open spec fn spec_notice(action: SnapAction) -> Seq<char> {
    match action {
        SnapAction::StopAbnormal => "Agent exited abnormally. Worktree preserved.\n"@,
        SnapAction::Cleanup => "No changes detected. Cleaning up...\n"@,
        SnapAction::RunAgent => "Reopening agent...\n"@,
        SnapAction::StopPreserved => "\nExiting snap mode. Worktree preserved.\n\nYour changes are safe. To continue later:\n  git add . && git commit -m 'your message'\n  wt merge    # merge and cleanup\n\n"@,
        _ => ""@,
    }
}

/// What snap mode prints on stderr when it takes `action` on an event: why it
/// stops, that it cleans up or reopens the agent, or how to go on with the
/// kept changes; nothing when it inspects, prompts or merges.
pub fn snap_notice(action: SnapAction) -> (s: &'static str)
    ensures
        s@ == spec_notice(action),
{
    match action {
        SnapAction::StopAbnormal => "Agent exited abnormally. Worktree preserved.\n",
        SnapAction::Cleanup => "No changes detected. Cleaning up...\n",
        SnapAction::RunAgent => "Reopening agent...\n",
        SnapAction::StopPreserved => "\nExiting snap mode. Worktree preserved.\n\nYour changes are safe. To continue later:\n  git add . && git commit -m 'your message'\n  wt merge    # merge and cleanup\n\n",
        _ => "",
    }
}

/// The line announcing the merge of `branch` into `trunk`.
pub fn merging_notice(branch: &str, trunk: &str) -> (s: String)
    ensures
        s@ == "Merging "@ + branch@ + " into "@ + trunk@ + "...\n"@,
{
    let mut s = String::from_str("Merging ");
    s.append(branch);
    s.append(" into ");
    s.append(trunk);
    s.append("...\n");
    s
}

/// The line reporting the merge of `branch` into `trunk` as done.
pub fn merged_notice(branch: &str, trunk: &str) -> (s: String)
    ensures
        s@ == "Merged "@ + branch@ + " into "@ + trunk@ + "\n"@,
{
    let mut s = String::from_str("Merged ");
    s.append(branch);
    s.append(" into ");
    s.append(trunk);
    s.append("\n");
    s
}

/// The line announcing the pre-merge hooks (`pre`) or the post-merge hooks.
pub fn hooks_notice(pre: bool) -> (s: &'static str)
    ensures
        pre ==> s@ == "Running pre-merge hooks...\n"@,
        !pre ==> s@ == "Running post-merge hooks...\n"@,
{
    if pre {
        "Running pre-merge hooks...\n"
    } else {
        "Running post-merge hooks...\n"
    }
}

} // verus!
