//! The git invocations behind the repository operations.

use vstd::prelude::*;
use crate::text::strings_view;

verus! {

/// How the caller treats the outcome of a git invocation.
#[derive(PartialEq, Eq, Structural, Clone, Copy, Debug)]
pub enum RunMode {
    /// Fail when git exits unsuccessfully, reporting what git wrote on stderr.
    Run,
    /// Fail when git exits unsuccessfully, reporting the message extracted
    /// from git's output (used where git reports conflicts on stdout).
    RunExtract,
    /// Only a failure to start git is an error; git's exit status is ignored.
    IgnoreStatus,
}

/// One invocation of `git`: its arguments and how its outcome is treated.
pub struct GitCommand {
    pub args: Vec<String>,
    pub mode: RunMode,
}

/// An optional string slice, taken as its characters.
pub open spec fn opt_str_view(o: Option<&str>) -> Option<Seq<char>> {
    match o {
        Some(s) => Some(s@),
        None => None,
    }
}

impl GitCommand {
    /// The arguments of the invocation, each as a character sequence.
    pub open spec fn arg_view(&self) -> Seq<Seq<char>> {
        strings_view(self.args@)
    }
}

/// The arguments of `git merge`: the options in a fixed order, then the branch.
pub open spec fn spec_merge_args(
    branch: Seq<char>,
    squash: bool,
    no_ff: bool,
    message: Option<Seq<char>>,
) -> Seq<Seq<char>> {
    seq!["merge"@]
        + (if squash { seq!["--squash"@] } else { Seq::empty() })
        + (if no_ff { seq!["--no-ff"@] } else { Seq::empty() })
        + (match message {
            Some(m) => seq!["-m"@, m],
            None => Seq::empty(),
        })
        + seq![branch]
}

/// Appends `s` to the argument list.
fn push_arg(args: &mut Vec<String>, s: &str)
    ensures
        strings_view(final(args)@) == strings_view(old(args)@).push(s@),
{
    args.push(String::from_str(s));
    assert(strings_view(args@) =~= strings_view(old(args)@).push(s@));
}

/// `git merge [--squash] [--no-ff] [-m <message>] <branch>`.
pub fn merge(branch: &str, squash: bool, no_ff: bool, message: Option<&str>) -> (cmd: GitCommand)
    ensures
        cmd.arg_view() == spec_merge_args(branch@, squash, no_ff, opt_str_view(message)),
        cmd.mode == RunMode::RunExtract,
{
    let mut args: Vec<String> = Vec::new();
    push_arg(&mut args, "merge");
    if squash {
        push_arg(&mut args, "--squash");
    }
    if no_ff {
        push_arg(&mut args, "--no-ff");
    }
    if let Some(msg) = message {
        push_arg(&mut args, "-m");
        push_arg(&mut args, msg);
    }
    push_arg(&mut args, branch);
    let cmd = GitCommand { args, mode: RunMode::RunExtract };
    assert(cmd.arg_view() =~= spec_merge_args(branch@, squash, no_ff, opt_str_view(message)));
    cmd
}

fn command2(a: &str, b: &str, mode: RunMode) -> (cmd: GitCommand)
    ensures
        cmd.arg_view() == seq![a@, b@],
        cmd.mode == mode,
{
    let mut args: Vec<String> = Vec::new();
    push_arg(&mut args, a);
    push_arg(&mut args, b);
    let cmd = GitCommand { args, mode };
    assert(cmd.arg_view() =~= seq![a@, b@]);
    cmd
}

/// `git rebase <onto>`.
pub fn rebase(onto: &str) -> (cmd: GitCommand)
    ensures
        cmd.arg_view() == seq!["rebase"@, onto@],
        cmd.mode == RunMode::Run,
{
    command2("rebase", onto, RunMode::Run)
}

/// `git checkout <branch>`.
pub fn checkout(branch: &str) -> (cmd: GitCommand)
    ensures
        cmd.arg_view() == seq!["checkout"@, branch@],
        cmd.mode == RunMode::Run,
{
    command2("checkout", branch, RunMode::Run)
}

/// `git commit -m <message>`: commits the staged changes.
pub fn commit(message: &str) -> (cmd: GitCommand)
    ensures
        cmd.arg_view() == seq!["commit"@, "-m"@, message@],
        cmd.mode == RunMode::RunExtract,
{
    let mut args: Vec<String> = Vec::new();
    push_arg(&mut args, "commit");
    push_arg(&mut args, "-m");
    push_arg(&mut args, message);
    let cmd = GitCommand { args, mode: RunMode::RunExtract };
    assert(cmd.arg_view() =~= seq!["commit"@, "-m"@, message@]);
    cmd
}

/// `git fetch --quiet`: a failing fetch is not an error, only a git that cannot be started.
pub fn fetch() -> (cmd: GitCommand)
    ensures
        cmd.arg_view() == seq!["fetch"@, "--quiet"@],
        cmd.mode == RunMode::IgnoreStatus,
{
    command2("fetch", "--quiet", RunMode::IgnoreStatus)
}

/// `git rebase --abort`: abandons an in-progress rebase.
pub fn rebase_abort() -> (cmd: GitCommand)
    ensures
        cmd.arg_view() == seq!["rebase"@, "--abort"@],
        cmd.mode == RunMode::Run,
{
    command2("rebase", "--abort", RunMode::Run)
}

/// `git rebase --continue`: continues an in-progress rebase.
pub fn rebase_continue() -> (cmd: GitCommand)
    ensures
        cmd.arg_view() == seq!["rebase"@, "--continue"@],
        cmd.mode == RunMode::Run,
{
    command2("rebase", "--continue", RunMode::Run)
}

/// `git merge --abort`: abandons an in-progress merge.
pub fn merge_abort() -> (cmd: GitCommand)
    ensures
        cmd.arg_view() == seq!["merge"@, "--abort"@],
        cmd.mode == RunMode::Run,
{
    command2("merge", "--abort", RunMode::Run)
}

/// `git reset --merge`: resets the index to HEAD, clearing any merge or squash
/// conflict state (unlike `merge --abort`, this also works for `--squash`
/// conflicts, which create no MERGE_HEAD).
pub fn reset_merge() -> (cmd: GitCommand)
    ensures
        cmd.arg_view() == seq!["reset"@, "--merge"@],
        cmd.mode == RunMode::Run,
{
    command2("reset", "--merge", RunMode::Run)
}

/// `git commit --no-edit`: concludes a merge after its conflicts were resolved.
pub fn merge_continue() -> (cmd: GitCommand)
    ensures
        cmd.arg_view() == seq!["commit"@, "--no-edit"@],
        cmd.mode == RunMode::RunExtract,
{
    command2("commit", "--no-edit", RunMode::RunExtract)
}

/// `git rev-parse --git-dir`: asks for the repository's git directory. The
/// caller hands whether git succeeded and its trimmed standard output to
/// `git_dir_from`.
pub fn git_dir_query() -> (cmd: GitCommand)
    ensures
        cmd.arg_view() == seq!["rev-parse"@, "--git-dir"@],
        cmd.mode == RunMode::IgnoreStatus,
{
    command2("rev-parse", "--git-dir", RunMode::IgnoreStatus)
}

/// An optional string, taken as its characters.
pub open spec fn opt_string_view(o: Option<String>) -> Option<Seq<char>> {
    match o {
        Some(s) => Some(s@),
        None => None,
    }
}

/// The git directory that `git rev-parse --git-dir` names: its output, when git
/// succeeded and printed something; none otherwise (outside a repository git
/// fails).
pub open spec fn spec_git_dir(succeeded: bool, output: Seq<char>) -> Option<Seq<char>> {
    if succeeded && output.len() > 0 {
        Some(output)
    } else {
        None
    }
}

/// The git directory from the outcome of `git rev-parse --git-dir`: `succeeded`
/// tells whether git started and exited successfully, `output` is its trimmed
/// standard output.
pub fn git_dir_from(succeeded: bool, output: String) -> (dir: Option<String>)
    ensures
        opt_string_view(dir) == spec_git_dir(succeeded, output@),
{
    if succeeded && !output.as_str().is_empty() {
        Some(output)
    } else {
        None
    }
}

/// The entry of the git directory whose presence marks a merge-style rebase.
pub fn rebase_merge_marker() -> (s: &'static str)
    ensures
        s@ == "rebase-merge"@,
{
    "rebase-merge"
}

/// The entry of the git directory whose presence marks an apply-style rebase.
pub fn rebase_apply_marker() -> (s: &'static str)
    ensures
        s@ == "rebase-apply"@,
{
    "rebase-apply"
}

/// The entry of the git directory whose presence marks an in-progress merge.
pub fn merge_head_marker() -> (s: &'static str)
    ensures
        s@ == "MERGE_HEAD"@,
{
    "MERGE_HEAD"
}

/// A rebase is in progress when there is a git directory and it holds either
/// rebase marker.
pub open spec fn spec_rebase_in_progress(git_dir: Option<Seq<char>>, rebase_merge_exists: bool, rebase_apply_exists: bool) -> bool {
    git_dir is Some && (rebase_merge_exists || rebase_apply_exists)
}

/// A merge is in progress when there is a git directory and it holds MERGE_HEAD.
pub open spec fn spec_merge_in_progress(git_dir: Option<Seq<char>>, merge_head_exists: bool) -> bool {
    git_dir is Some && merge_head_exists
}

/// Whether a rebase is in progress, given the git directory (see `git_dir_from`)
/// and whether its rebase markers exist.
pub fn is_rebase_in_progress(git_dir: &Option<String>, rebase_merge_exists: bool, rebase_apply_exists: bool) -> (r: bool)
    ensures
        r == spec_rebase_in_progress(opt_string_view(*git_dir), rebase_merge_exists, rebase_apply_exists),
{
    git_dir.is_some() && (rebase_merge_exists || rebase_apply_exists)
}

/// Whether a merge is in progress, given the git directory (see `git_dir_from`)
/// and whether its MERGE_HEAD exists.
pub fn is_merge_in_progress(git_dir: &Option<String>, merge_head_exists: bool) -> (r: bool)
    ensures
        r == spec_merge_in_progress(opt_string_view(*git_dir), merge_head_exists),
{
    git_dir.is_some() && merge_head_exists
}

/// Outside a repository, where `git rev-parse --git-dir` fails, or when it names
/// no directory, neither a rebase nor a merge is in progress, whatever files the
/// current directory holds.
pub proof fn lemma_no_git_dir_nothing_in_progress(
    succeeded: bool,
    output: Seq<char>,
    rebase_merge_exists: bool,
    rebase_apply_exists: bool,
    merge_head_exists: bool,
)
    requires
        !succeeded || output.len() == 0,
    ensures
        !spec_rebase_in_progress(spec_git_dir(succeeded, output), rebase_merge_exists, rebase_apply_exists),
        !spec_merge_in_progress(spec_git_dir(succeeded, output), merge_head_exists),
{
}

/// What `git merge` is asked, whatever the options: `merge` first and the
/// branch last; one argument for each flag asked for and two for a message;
/// `--squash` right after `merge` when squashing; `--no-ff` when no fast-forward
/// is wanted; and a message always passed as `-m` followed by the message, right
/// before the branch, whether or not the other options are asked for.
pub proof fn lemma_merge_args(branch: Seq<char>, squash: bool, no_ff: bool, message: Option<Seq<char>>)
    ensures
        ({
            let args = spec_merge_args(branch, squash, no_ff, message);
            &&& args[0] == "merge"@
            &&& args.last() == branch
            &&& args.len() == 2 + (if squash { 1int } else { 0int }) + (if no_ff { 1int } else { 0int })
                + (if message is Some { 2int } else { 0int })
            &&& squash ==> args[1] == "--squash"@
            &&& no_ff ==> args[if squash { 2int } else { 1int }] == "--no-ff"@
            &&& no_ff ==> args.contains("--no-ff"@)
            &&& forall|m: Seq<char>| message == Some(m) ==> args[args.len() - 3] == "-m"@ && #[trigger] args[args.len() - 2] == m
        }),
{
    let args = spec_merge_args(branch, squash, no_ff, message);
    if no_ff {
        let k: int = if squash { 2 } else { 1 };
        assert(args[k] == "--no-ff"@);
    }
}

} // verus!
