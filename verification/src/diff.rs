//! `wt diff`: the changes of the current branch against its trunk, in three
//! sections (committed, uncommitted, staged).

use vstd::prelude::*;
use crate::text::strings_view;
use crate::trunk::{choose_branch, TrunkChoice};

verus! {

/// Options of `wt diff`.
pub struct DiffArgs {
    /// Show only the diffstat (the changed files with their +/- counts).
    pub stat: bool,
    /// Compare with this branch instead of the trunk.
    pub target: Option<String>,
}

/// One section of the output: a header, and the git arguments whose output
/// follows it.
pub struct DiffSection {
    pub header: String,
    pub git_args: Vec<String>,
}

impl DiffSection {
    pub open spec fn header_view(&self) -> Seq<char> {
        self.header@
    }

    pub open spec fn args_view(&self) -> Seq<Seq<char>> {
        strings_view(self.git_args@)
    }
}

/// The branch to compare with: the one named by `--target`, else the
/// configured trunk, else the detected one.
pub fn target_choice(args: &DiffArgs, configured_trunk: Option<String>) -> (c: TrunkChoice)
    ensures
        match (args.target, configured_trunk) {
            (Some(b), _) => c == TrunkChoice::Known(b),
            (None, Some(t)) => c == TrunkChoice::Known(t),
            (None, None) => c == TrunkChoice::Detect,
        },
{
    choose_branch(args.target.clone(), configured_trunk)
}

/// The revision range of the committed changes: `<target>...HEAD`.
pub open spec fn spec_range(target: Seq<char>) -> Seq<char> {
    target + "...HEAD"@
}

pub open spec fn committed_header(current: Seq<char>, target: Seq<char>) -> Seq<char> {
    "Committed changes ("@ + current + " vs "@ + target + "):"@
}

/// `--stat` when only the diffstat is wanted.
pub open spec fn stat_flag(stat: bool) -> Seq<Seq<char>> {
    if stat {
        seq!["--stat"@]
    } else {
        Seq::empty()
    }
}

/// The headers of the three sections, in order.
pub open spec fn spec_headers(current: Seq<char>, target: Seq<char>) -> Seq<Seq<char>> {
    seq![committed_header(current, target), "Uncommitted changes:"@, "Staged changes:"@]
}

/// The git arguments of the three sections, in order: the committed changes
/// since the merge base with the target, the unstaged changes, the staged ones.
pub open spec fn spec_section_args(stat: bool, target: Seq<char>) -> Seq<Seq<Seq<char>>> {
    seq![
        seq!["diff"@] + stat_flag(stat) + seq![spec_range(target)],
        seq!["diff"@] + stat_flag(stat),
        seq!["diff"@] + stat_flag(stat) + seq!["--cached"@],
    ]
}

fn section(header: String, first: &str, stat: bool, last: Option<String>) -> (s: DiffSection)
    ensures
        s.header_view() == header@,
        s.args_view() == seq![first@] + stat_flag(stat) + match last {
            Some(l) => seq![l@],
            None => Seq::<Seq<char>>::empty(),
        },
{
    let mut git_args: Vec<String> = Vec::new();
    git_args.push(String::from_str(first));
    if stat {
        git_args.push(String::from_str("--stat"));
    }
    match last {
        Some(l) => {
            git_args.push(l);
        },
        None => {},
    }
    let s = DiffSection { header, git_args };
    assert(s.args_view() =~= seq![first@] + stat_flag(stat) + match last {
        Some(l) => seq![l@],
        None => Seq::<Seq<char>>::empty(),
    });
    s
}

/// The sections that `wt diff` shows for the branch `current` compared with
/// `target`, in order; each is printed only when its git output is not empty.
pub fn run(args: &DiffArgs, current: &str, target: &str) -> (plan: Vec<DiffSection>)
    ensures
        plan.len() == 3,
        forall|i: int| 0 <= i < 3 ==> #[trigger] plan@[i].header_view() == spec_headers(current@, target@)[i],
        forall|i: int| 0 <= i < 3 ==> #[trigger] plan@[i].args_view() == spec_section_args(args.stat, target@)[i],
{
    let mut header = String::from_str("Committed changes (");
    header.append(current);
    header.append(" vs ");
    header.append(target);
    header.append("):");
    let mut range = String::from_str(target);
    range.append("...HEAD");
    let s0 = section(header, "diff", args.stat, Some(range));
    let s1 = section(String::from_str("Uncommitted changes:"), "diff", args.stat, None);
    let s2 = section(String::from_str("Staged changes:"), "diff", args.stat, Some(String::from_str("--cached")));
    assert(s1.args_view() =~= seq!["diff"@] + stat_flag(args.stat));
    let plan = vec![s0, s1, s2];
    assert(plan@[0].header_view() =~= spec_headers(current@, target@)[0]);
    assert(plan@[0].args_view() =~= spec_section_args(args.stat, target@)[0]);
    assert(plan@[1].args_view() =~= spec_section_args(args.stat, target@)[1]);
    assert(plan@[2].args_view() =~= spec_section_args(args.stat, target@)[2]);
    plan
}

/// What a section prints: nothing when git printed nothing, else the header
/// on a line of its own followed by git's output as it came.
pub open spec fn spec_section_text(header: Seq<char>, content: Seq<char>) -> Seq<char> {
    if content.len() == 0 {
        Seq::empty()
    } else {
        header + "\n"@ + content
    }
}

/// The text of one section of the output.
pub fn render_section(header: &str, content: &str) -> (s: String)
    ensures
        s@ == spec_section_text(header@, content@),
{
    if content.is_empty() {
        String::new()
    } else {
        let mut s = String::from_str(header);
        s.append("\n");
        s.append(content);
        s
    }
}

/// The sections of `wt diff`: each runs `git diff`, with `--stat` as its
/// second argument exactly when only the diffstat is wanted; the committed
/// section compares the merge base of the target with HEAD (`<target>...HEAD`,
/// its last argument), the uncommitted section takes no further argument, and
/// the staged section ends with `--cached`.
pub proof fn lemma_sections(stat: bool, target: Seq<char>)
    ensures
        ({
            let sections = spec_section_args(stat, target);
            &&& sections.len() == 3
            &&& forall|i: int| 0 <= i < 3 ==> (#[trigger] sections[i])[0] == "diff"@
            &&& forall|i: int| 0 <= i < 3 ==> stat ==> (#[trigger] sections[i])[1] == "--stat"@
            &&& sections[0].last() == target + "...HEAD"@
            &&& sections[1].len() == if stat { 2int } else { 1int }
            &&& sections[2].last() == "--cached"@
            &&& sections[0].len() == sections[1].len() + 1
            &&& sections[2].len() == sections[1].len() + 1
        }),
{
    let sections = spec_section_args(stat, target);
    assert(sections[0][0] == "diff"@);
    assert(sections[1][0] == "diff"@);
    assert(sections[2][0] == "diff"@);
    if stat {
        assert(sections[0][1] == "--stat"@);
        assert(sections[1][1] == "--stat"@);
        assert(sections[2][1] == "--stat"@);
    }
}

/// A section prints something exactly when git printed something, and then it
/// ends with git's output, preceded by its header and a line break.
pub proof fn lemma_section_text(header: Seq<char>, content: Seq<char>)
    ensures
        spec_section_text(header, content).len() == 0 <==> content.len() == 0,
        content.len() > 0 ==> spec_section_text(header, content).subrange(
            0,
            header.len() as int,
        ) == header,
        content.len() > 0 ==> spec_section_text(header, content).subrange(
            spec_section_text(header, content).len() - content.len(),
            spec_section_text(header, content).len() as int,
        ) == content,
{
    if content.len() > 0 {
        let t = spec_section_text(header, content);
        reveal_strlit("\n");
        assert(t.subrange(0, header.len() as int) =~= header);
        assert(t.subrange(t.len() - content.len(), t.len() as int) =~= content);
    }
}

} // verus!
