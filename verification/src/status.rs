//! `wt status`: the overview of the current branch and its worktree.

use vstd::prelude::*;
use crate::text::strings_view;
use crate::paths::{is_within, spec_within};
use crate::text::{push_decimal, spec_decimal};

verus! {

/// Options of `wt status`.
pub struct StatusArgs {
    /// Print the overview as JSON.
    pub json: bool,
}

/// Lines inserted and deleted by a diff.
#[derive(PartialEq, Eq, Structural, Clone, Copy, Debug)]
pub struct DiffStat {
    pub insertions: usize,
    pub deletions: usize,
}

/// What `wt status` reports.
pub struct StatusInfo {
    pub branch: String,
    pub in_worktree: bool,
    pub trunk: String,
    pub commits_ahead: usize,
    pub uncommitted: usize,
    pub insertions: usize,
    pub deletions: usize,
    pub merge_in_progress: bool,
    pub rebase_in_progress: bool,
}

/// A count that could not be had counts as zero.
pub open spec fn count_or_zero(c: Option<usize>) -> nat {
    match c {
        Some(n) => n as nat,
        None => 0,
    }
}

/// A diffstat that could not be had counts as no change.
pub open spec fn stat_or_zero(s: Option<DiffStat>) -> DiffStat {
    match s {
        Some(d) => d,
        None => DiffStat { insertions: 0, deletions: 0 },
    }
}

/// The two diffstats can be added without leaving the range of `usize`.
pub open spec fn stats_addable(a: Option<DiffStat>, b: Option<DiffStat>) -> bool {
    &&& stat_or_zero(a).insertions + stat_or_zero(b).insertions <= usize::MAX
    &&& stat_or_zero(a).deletions + stat_or_zero(b).deletions <= usize::MAX
}

/// Whether the working directory lies in the project's directory of managed
/// worktrees; `false` when either path could not be resolved.
pub fn in_managed_worktree(cwd: &Option<Vec<String>>, worktrees_dir: &Option<Vec<String>>) -> (r: bool)
    ensures
        r == match (*cwd, *worktrees_dir) {
            (Some(c), Some(d)) => spec_within(strings_view(c@), strings_view(d@)),
            _ => false,
        },
{
    match (cwd, worktrees_dir) {
        (Some(c), Some(d)) => is_within(c, d),
        _ => false,
    }
}

fn stat_or_zero_exec(s: Option<DiffStat>) -> (r: DiffStat)
    ensures
        r == stat_or_zero(s),
{
    match s {
        Some(d) => d,
        None => DiffStat { insertions: 0, deletions: 0 },
    }
}

/// Assembles the report from what was gathered. A count or diffstat that git
/// could not produce (`None`) counts as zero; the diff totals add the committed
/// and the uncommitted changes.
pub fn build_status(
    branch: String,
    in_worktree: bool,
    trunk: String,
    commits_ahead: Option<usize>,
    uncommitted: Option<usize>,
    committed_diff: Option<DiffStat>,
    uncommitted_diff: Option<DiffStat>,
    merge_in_progress: bool,
    rebase_in_progress: bool,
) -> (info: StatusInfo)
    requires
        stats_addable(committed_diff, uncommitted_diff),
    ensures
        info.branch == branch,
        info.in_worktree == in_worktree,
        info.trunk == trunk,
        info.commits_ahead == count_or_zero(commits_ahead),
        info.uncommitted == count_or_zero(uncommitted),
        info.insertions == stat_or_zero(committed_diff).insertions + stat_or_zero(uncommitted_diff).insertions,
        info.deletions == stat_or_zero(committed_diff).deletions + stat_or_zero(uncommitted_diff).deletions,
        info.merge_in_progress == merge_in_progress,
        info.rebase_in_progress == rebase_in_progress,
{
    let c = stat_or_zero_exec(committed_diff);
    let u = stat_or_zero_exec(uncommitted_diff);
    StatusInfo {
        branch,
        in_worktree,
        trunk,
        commits_ahead: match commits_ahead {
            Some(n) => n,
            None => 0,
        },
        uncommitted: match uncommitted {
            Some(n) => n,
            None => 0,
        },
        insertions: c.insertions + u.insertions,
        deletions: c.deletions + u.deletions,
        merge_in_progress,
        rebase_in_progress,
    }
}

/// `s` when `n` is not one, else nothing.
pub open spec fn plural_suffix(n: nat) -> Seq<char> {
    if n == 1 {
        Seq::empty()
    } else {
        "s"@
    }
}

pub open spec fn location_text(in_worktree: bool) -> Seq<char> {
    if in_worktree {
        "managed worktree"@
    } else {
        "main repository"@
    }
}

pub open spec fn diff_line(insertions: nat, deletions: nat) -> Seq<char> {
    if insertions > 0 || deletions > 0 {
        "Diff:        +"@ + spec_decimal(insertions) + " -"@ + spec_decimal(deletions) + "\n"@
    } else {
        "Diff:        -"@ + "\n"@
    }
}

pub open spec fn warning_lines(merge_in_progress: bool, rebase_in_progress: bool) -> Seq<char> {
    (if merge_in_progress {
        "\n"@ + "WARNING: Merge in progress"@ + "\n"@
    } else {
        Seq::empty()
    }) + (if rebase_in_progress {
        "\n"@ + "WARNING: Rebase in progress"@ + "\n"@
    } else {
        Seq::empty()
    })
}

pub open spec fn head_lines(branch: Seq<char>, in_worktree: bool, trunk: Seq<char>) -> Seq<char> {
    "Branch:      "@ + branch + "\n"@
        + "Location:    "@ + location_text(in_worktree) + "\n"@
        + "Trunk:       "@ + trunk + "\n"@
}

pub open spec fn count_lines(commits_ahead: nat, uncommitted: nat) -> Seq<char> {
    "Ahead:       "@ + spec_decimal(commits_ahead) + " commit"@ + plural_suffix(commits_ahead) + "\n"@
        + "Uncommitted: "@ + spec_decimal(uncommitted) + " file"@ + plural_suffix(uncommitted) + "\n"@
}

/// The text that `wt status` prints for `info`.
pub open spec fn spec_status_text(info: StatusInfo) -> Seq<char> {
    head_lines(info.branch@, info.in_worktree, info.trunk@)
        + count_lines(info.commits_ahead as nat, info.uncommitted as nat)
        + diff_line(info.insertions as nat, info.deletions as nat)
        + warning_lines(info.merge_in_progress, info.rebase_in_progress)
}

fn push_plural(out: &mut String, n: usize)
    ensures
        final(out)@ == old(out)@ + plural_suffix(n as nat),
{
    if n != 1 {
        out.append("s");
    } else {
        assert(old(out)@ + plural_suffix(n as nat) =~= old(out)@);
    }
}

fn push_head_lines(out: &mut String, info: &StatusInfo)
    ensures
        final(out)@ == old(out)@ + head_lines(info.branch@, info.in_worktree, info.trunk@),
{
    out.append("Branch:      ");
    out.append(info.branch.as_str());
    out.append("\n");
    out.append("Location:    ");
    if info.in_worktree {
        out.append("managed worktree");
    } else {
        out.append("main repository");
    }
    out.append("\n");
    out.append("Trunk:       ");
    out.append(info.trunk.as_str());
    out.append("\n");
    assert(final(out)@ =~= old(out)@ + head_lines(info.branch@, info.in_worktree, info.trunk@));
}

fn push_count_line(out: &mut String, label: &str, n: usize, unit: &str)
    ensures
        final(out)@ == old(out)@ + label@ + spec_decimal(n as nat) + unit@ + plural_suffix(n as nat) + "\n"@,
{
    out.append(label);
    push_decimal(out, n);
    out.append(unit);
    push_plural(out, n);
    out.append("\n");
}

fn push_diff_line(out: &mut String, insertions: usize, deletions: usize)
    ensures
        final(out)@ == old(out)@ + diff_line(insertions as nat, deletions as nat),
{
    if insertions > 0 || deletions > 0 {
        out.append("Diff:        +");
        push_decimal(out, insertions);
        out.append(" -");
        push_decimal(out, deletions);
        out.append("\n");
    } else {
        out.append("Diff:        -");
        out.append("\n");
    }
    assert(final(out)@ =~= old(out)@ + diff_line(insertions as nat, deletions as nat));
}

fn push_warnings(out: &mut String, merge_in_progress: bool, rebase_in_progress: bool)
    ensures
        final(out)@ == old(out)@ + warning_lines(merge_in_progress, rebase_in_progress),
{
    if merge_in_progress {
        out.append("\n");
        out.append("WARNING: Merge in progress");
        out.append("\n");
    }
    if rebase_in_progress {
        out.append("\n");
        out.append("WARNING: Rebase in progress");
        out.append("\n");
    }
    assert(final(out)@ =~= old(out)@ + warning_lines(merge_in_progress, rebase_in_progress));
}

/// The text that `wt status` prints for `info`.
pub fn render_status(info: &StatusInfo) -> (s: String)
    ensures
        s@ == spec_status_text(*info),
{
    let mut s = String::new();
    push_head_lines(&mut s, info);
    let ghost a = s@;
    push_count_line(&mut s, "Ahead:       ", info.commits_ahead, " commit");
    push_count_line(&mut s, "Uncommitted: ", info.uncommitted, " file");
    assert(s@ =~= a + count_lines(info.commits_ahead as nat, info.uncommitted as nat));
    push_diff_line(&mut s, info.insertions, info.deletions);
    push_warnings(&mut s, info.merge_in_progress, info.rebase_in_progress);
    assert(s@ =~= spec_status_text(*info));
    s
}

/// The two reports differ at most in their in-progress flags.
pub open spec fn same_but_flags(a: StatusInfo, b: StatusInfo) -> bool {
    &&& a.branch == b.branch
    &&& a.in_worktree == b.in_worktree
    &&& a.trunk == b.trunk
    &&& a.commits_ahead == b.commits_ahead
    &&& a.uncommitted == b.uncommitted
    &&& a.insertions == b.insertions
    &&& a.deletions == b.deletions
}

/// The warnings of `wt status` are independent of each other and come last: a
/// rebase in progress adds, at the very end, an empty line and
/// `WARNING: Rebase in progress`, whether or not a merge is in progress; a merge
/// in progress adds an empty line and `WARNING: Merge in progress` after the
/// overview and before any rebase warning; without either the text ends with
/// the diff line.
pub proof fn lemma_status_warnings(quiet: StatusInfo, merging: StatusInfo, rebasing: StatusInfo, both: StatusInfo)
    requires
        same_but_flags(quiet, merging),
        same_but_flags(quiet, rebasing),
        same_but_flags(quiet, both),
        !quiet.merge_in_progress && !quiet.rebase_in_progress,
        merging.merge_in_progress && !merging.rebase_in_progress,
        !rebasing.merge_in_progress && rebasing.rebase_in_progress,
        both.merge_in_progress && both.rebase_in_progress,
    ensures
        spec_status_text(quiet) == head_lines(quiet.branch@, quiet.in_worktree, quiet.trunk@)
            + count_lines(quiet.commits_ahead as nat, quiet.uncommitted as nat)
            + diff_line(quiet.insertions as nat, quiet.deletions as nat),
        spec_status_text(merging) == spec_status_text(quiet) + "\n"@ + "WARNING: Merge in progress"@ + "\n"@,
        spec_status_text(rebasing) == spec_status_text(quiet) + "\n"@ + "WARNING: Rebase in progress"@ + "\n"@,
        spec_status_text(both) == spec_status_text(merging) + "\n"@ + "WARNING: Rebase in progress"@ + "\n"@,
{
    assert(spec_status_text(quiet) =~= head_lines(quiet.branch@, quiet.in_worktree, quiet.trunk@)
        + count_lines(quiet.commits_ahead as nat, quiet.uncommitted as nat)
        + diff_line(quiet.insertions as nat, quiet.deletions as nat));
    assert(spec_status_text(merging) =~= spec_status_text(quiet) + "\n"@ + "WARNING: Merge in progress"@ + "\n"@);
    assert(spec_status_text(rebasing) =~= spec_status_text(quiet) + "\n"@ + "WARNING: Rebase in progress"@ + "\n"@);
    assert(spec_status_text(both) =~= spec_status_text(merging) + "\n"@ + "WARNING: Rebase in progress"@ + "\n"@);
}

} // verus!
