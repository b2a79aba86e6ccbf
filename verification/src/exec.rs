//! `wt exec`: one shell command run in each managed worktree of the project.

use vstd::prelude::*;
use crate::text::strings_view;
use crate::paths::{is_within, spec_within};
use crate::text::{join_words, push_decimal, spec_decimal, spec_join};

verus! {

/// Options of `wt exec`.
pub struct ExecArgs {
    /// The command to execute in each worktree, as words.
    pub command: Vec<String>,
    /// Run only in the worktrees of these branches.
    pub branches: Option<Vec<String>>,
}

/// A worktree of the repository: its path, as components, and its branch
/// (`None` when its HEAD is detached).
pub struct WorktreeEntry {
    pub path: Vec<String>,
    pub branch: Option<String>,
}

/// The branch filter admits a worktree: there is no filter, or the worktree is
/// on a branch that the filter lists.
pub open spec fn filter_admits(branches: Option<Vec<String>>, branch: Option<String>) -> bool {
    match branches {
        None => true,
        Some(bs) => match branch {
            Some(b) => strings_view(bs@).contains(b@),
            None => false,
        },
    }
}

/// The command runs in `wt`: it lies in the project's worktree directory and
/// the branch filter admits it.
pub open spec fn selected(wt: WorktreeEntry, worktrees_dir: Seq<Seq<char>>, branches: Option<Vec<String>>) -> bool {
    &&& spec_within(strings_view(wt.path@), worktrees_dir)
    &&& filter_admits(branches, wt.branch)
}

/// Whether `name` is among `names`.
pub fn lists_branch(names: &Vec<String>, name: &String) -> (r: bool)
    ensures
        r == strings_view(names@).contains(name@),
{
    let ghost v = strings_view(names@);
    let mut i: usize = 0;
    while i < names.len()
        invariant
            v == strings_view(names@),
            i <= names.len(),
            forall|j: int| 0 <= j < i ==> v[j] != name@,
        decreases names.len() - i,
    {
        if names[i] == *name {
            assert(v[i as int] == name@);
            return true;
        }
        i = i + 1;
    }
    false
}

fn admits(branches: &Option<Vec<String>>, branch: &Option<String>) -> (r: bool)
    ensures
        r == filter_admits(*branches, *branch),
{
    match branches {
        None => true,
        Some(bs) => match branch {
            Some(b) => lists_branch(bs, b),
            None => false,
        },
    }
}

/// The positions, in `worktrees`, of the worktrees that the command runs in,
/// in their order there: exactly those inside `worktrees_dir` whose branch the
/// filter admits.
pub fn select_managed(
    worktrees: &Vec<WorktreeEntry>,
    worktrees_dir: &Vec<String>,
    branches: &Option<Vec<String>>,
) -> (picked: Vec<usize>)
    ensures
        forall|i: int| 0 <= i < picked.len() ==> #[trigger] picked@[i] < worktrees.len(),
        forall|i: int| 0 <= i < picked.len() ==>
            selected(worktrees@[#[trigger] picked@[i] as int], strings_view(worktrees_dir@), *branches),
        forall|i: int, j: int| 0 <= i < j < picked.len() ==> picked@[i] < picked@[j],
        forall|k: int| 0 <= k < worktrees.len() && selected(worktrees@[k], strings_view(worktrees_dir@), *branches)
            ==> picked@.contains(k as usize),
{
    let ghost dir = strings_view(worktrees_dir@);
    let mut picked: Vec<usize> = Vec::new();
    let mut k: usize = 0;
    while k < worktrees.len()
        invariant
            dir == strings_view(worktrees_dir@),
            k <= worktrees.len(),
            forall|i: int| 0 <= i < picked.len() ==> #[trigger] picked@[i] < k,
            forall|i: int| 0 <= i < picked.len() ==>
                selected(worktrees@[#[trigger] picked@[i] as int], dir, *branches),
            forall|i: int, j: int| 0 <= i < j < picked.len() ==> picked@[i] < picked@[j],
            forall|m: int| 0 <= m < k && selected(worktrees@[m], dir, *branches) ==> picked@.contains(m as usize),
        decreases worktrees.len() - k,
    {
        let wt = &worktrees[k];
        if is_within(&wt.path, worktrees_dir) && admits(branches, &wt.branch) {
            let ghost before = picked@;
            picked.push(k);
            assert forall|m: int| 0 <= m < k + 1 && selected(worktrees@[m], dir, *branches)
                implies picked@.contains(m as usize) by {
                if m < k {
                    let q: int = choose|q: int| 0 <= q < before.len() && before[q] == m as usize;
                    assert(picked@[q] == m as usize);
                } else {
                    assert(picked@[picked.len() - 1] == m as usize);
                }
            }
        }
        k = k + 1;
    }
    picked
}

/// The command line handed to the shell: the words joined with single spaces.
pub fn command_line(args: &ExecArgs) -> (s: String)
    ensures
        s@ == spec_join(strings_view(args.command@), " "@),
{
    join_words(&args.command, " ")
}

/// The line announcing the worktree of `branch`.
pub open spec fn spec_header(branch: Option<String>) -> Seq<char> {
    "==> "@ + match branch {
        Some(b) => b@,
        None => "(detached)"@,
    } + " <=="@
}

/// The line announcing the worktree of `branch`: `==> <branch> <==`, with
/// `(detached)` for a worktree without a branch.
pub fn worktree_header(branch: &Option<String>) -> (s: String)
    ensures
        s@ == spec_header(*branch),
{
    let mut s = String::from_str("==> ");
    match branch {
        Some(b) => s.append(b.as_str()),
        None => s.append("(detached)"),
    }
    s.append(" <==");
    s
}

/// How the command ended in one worktree.
#[derive(PartialEq, Eq, Structural, Clone, Copy, Debug)]
pub enum CommandOutcome {
    /// It ran and exited successfully.
    Succeeded,
    /// It ran and exited unsuccessfully.
    Failed,
    /// It could not be started.
    NotStarted,
}

/// The counts of the worktrees where the command succeeded and failed.
#[derive(PartialEq, Eq, Structural, Clone, Copy, Debug)]
pub struct ExecTally {
    pub succeeded: usize,
    pub failed: usize,
}

/// How many of `outcomes` are successes.
pub open spec fn count_succeeded(outcomes: Seq<CommandOutcome>) -> nat
    decreases outcomes.len(),
{
    if outcomes.len() == 0 {
        0
    } else {
        count_succeeded(outcomes.drop_last()) + if outcomes.last() == CommandOutcome::Succeeded {
            1nat
        } else {
            0nat
        }
    }
}

/// Counts the outcomes of the command across the worktrees: the successes, and
/// the failures (a command that could not be started counts as failed). Every
/// worktree is counted exactly once.
pub fn tally(outcomes: &Vec<CommandOutcome>) -> (t: ExecTally)
    ensures
        t.succeeded == count_succeeded(outcomes@),
        t.succeeded + t.failed == outcomes.len(),
{
    let mut t = ExecTally { succeeded: 0, failed: 0 };
    let mut i: usize = 0;
    while i < outcomes.len()
        invariant
            i <= outcomes.len(),
            t.succeeded == count_succeeded(outcomes@.take(i as int)),
            t.succeeded + t.failed == i,
        decreases outcomes.len() - i,
    {
        assert(outcomes@.take(i + 1).drop_last() =~= outcomes@.take(i as int));
        match outcomes[i] {
            CommandOutcome::Succeeded => {
                t.succeeded = t.succeeded + 1;
            },
            _ => {
                t.failed = t.failed + 1;
            },
        }
        i = i + 1;
    }
    assert(outcomes@.take(outcomes.len() as int) =~= outcomes@);
    t
}

/// The closing line of `wt exec`.
pub open spec fn spec_summary(worktrees: nat, succeeded: nat, failed: nat) -> Seq<char> {
    "Executed in "@ + spec_decimal(worktrees) + " worktree(s): "@ + spec_decimal(succeeded) + " succeeded, "@
        + spec_decimal(failed) + " failed"@
}

/// The closing line of `wt exec`: how many worktrees, how many succeeded and failed.
pub fn summary_line(worktrees: usize, tally: &ExecTally) -> (s: String)
    ensures
        s@ == spec_summary(worktrees as nat, tally.succeeded as nat, tally.failed as nat),
{
    let mut s = String::from_str("Executed in ");
    push_decimal(&mut s, worktrees);
    s.append(" worktree(s): ");
    push_decimal(&mut s, tally.succeeded);
    s.append(" succeeded, ");
    push_decimal(&mut s, tally.failed);
    s.append(" failed");
    assert(s@ =~= spec_summary(worktrees as nat, tally.succeeded as nat, tally.failed as nat));
    s
}

/// What `wt exec` prints, on stderr, when the project has no worktree to run in.
pub fn no_worktrees_message() -> (s: &'static str)
    ensures
        s@ == "No worktrees for this project."@,
{
    "No worktrees for this project."
}

/// Which worktrees `wt exec` runs in: never one outside the project's worktree
/// directory; inside it, every one when no branch list is given, and with a list
/// exactly those on a branch equal to some entry of the list, at any position
/// (so the order of the list does not matter).
pub proof fn lemma_selection(wt: WorktreeEntry, worktrees_dir: Seq<Seq<char>>, branches: Vec<String>)
    ensures
        !spec_within(strings_view(wt.path@), worktrees_dir) ==> !selected(wt, worktrees_dir, None)
            && !selected(wt, worktrees_dir, Some(branches)),
        spec_within(strings_view(wt.path@), worktrees_dir) ==> selected(wt, worktrees_dir, None),
        spec_within(strings_view(wt.path@), worktrees_dir) ==> (selected(wt, worktrees_dir, Some(branches))
            <==> match wt.branch {
            Some(b) => exists|i: int| #![trigger branches@[i]] 0 <= i < branches@.len() && branches@[i]@ == b@,
            None => false,
        }),
{
    let names = strings_view(branches@);
    match wt.branch {
        Some(b) => {
            if names.contains(b@) {
                let i = choose|i: int| 0 <= i < names.len() && names[i] == b@;
                assert(branches@[i]@ == b@);
            }
            if exists|i: int| #![trigger branches@[i]] 0 <= i < branches@.len() && branches@[i]@ == b@ {
                let i = choose|i: int| #![trigger branches@[i]] 0 <= i < branches@.len() && branches@[i]@ == b@;
                assert(names[i] == b@);
            }
        },
        None => {},
    }
}

/// Counting successes does not depend on order: one more success adds one, one
/// more failure or command that could not start adds none, and the successes of
/// two lists run one after the other add up (so they are the same whichever
/// list ran first); the count is the number of successes among the outcomes.
pub proof fn lemma_count_succeeded(outcomes: Seq<CommandOutcome>, more: Seq<CommandOutcome>, o: CommandOutcome)
    ensures
        count_succeeded(outcomes.push(CommandOutcome::Succeeded)) == count_succeeded(outcomes) + 1,
        o != CommandOutcome::Succeeded ==> count_succeeded(outcomes.push(o)) == count_succeeded(outcomes),
        count_succeeded(outcomes + more) == count_succeeded(outcomes) + count_succeeded(more),
        count_succeeded(outcomes + more) == count_succeeded(more + outcomes),
        count_succeeded(outcomes) == outcomes.filter(|x: CommandOutcome| x == CommandOutcome::Succeeded).len(),
        count_succeeded(outcomes) <= outcomes.len(),
{
    assert(outcomes.push(CommandOutcome::Succeeded).drop_last() =~= outcomes);
    assert(outcomes.push(o).drop_last() =~= outcomes);
    lemma_count_append(outcomes, more);
    lemma_count_append(more, outcomes);
    lemma_count_filter(outcomes);
}

proof fn lemma_count_append(a: Seq<CommandOutcome>, b: Seq<CommandOutcome>)
    ensures
        count_succeeded(a + b) == count_succeeded(a) + count_succeeded(b),
    decreases b.len(),
{
    if b.len() == 0 {
        assert(a + b =~= a);
    } else {
        assert((a + b).drop_last() =~= a + b.drop_last());
        assert((a + b).last() == b.last());
        lemma_count_append(a, b.drop_last());
    }
}

proof fn lemma_count_filter(a: Seq<CommandOutcome>)
    ensures
        count_succeeded(a) == a.filter(|x: CommandOutcome| x == CommandOutcome::Succeeded).len(),
        count_succeeded(a) <= a.len(),
    decreases a.len(),
{
    reveal_with_fuel(Seq::filter, 1);
    if a.len() > 0 {
        lemma_count_filter(a.drop_last());
    }
}

} // verus!
