//! Paths taken as their sequences of components, and containment between them.

use vstd::prelude::*;
use crate::text::strings_view;

verus! {

/// `dir` is a leading run of the components of `path`: the path lies at or below `dir`.
pub open spec fn spec_within(path: Seq<Seq<char>>, dir: Seq<Seq<char>>) -> bool {
    &&& dir.len() <= path.len()
    &&& path.subrange(0, dir.len() as int) == dir
}

/// Whether the path with components `path` lies at or below the directory
/// with components `dir`, component by component (so `/a/bc` is not below `/a/b`).
pub fn is_within(path: &Vec<String>, dir: &Vec<String>) -> (r: bool)
    ensures
        r == spec_within(strings_view(path@), strings_view(dir@)),
{
    let ghost p = strings_view(path@);
    let ghost d = strings_view(dir@);
    if dir.len() > path.len() {
        return false;
    }
    let mut i: usize = 0;
    while i < dir.len()
        invariant
            p == strings_view(path@),
            d == strings_view(dir@),
            dir.len() <= path.len(),
            i <= dir.len(),
            forall|j: int| 0 <= j < i ==> p[j] == d[j],
        decreases dir.len() - i,
    {
        if path[i] != dir[i] {
            assert(p[i as int] != d[i as int]);
            return false;
        }
        i = i + 1;
    }
    assert(p.subrange(0, d.len() as int) =~= d);
    true
}

/// A path lies at or below a directory exactly when it is the directory's
/// components followed by zero or more further components; every directory
/// contains itself.
pub proof fn lemma_within(path: Seq<Seq<char>>, dir: Seq<Seq<char>>, rest: Seq<Seq<char>>)
    ensures
        spec_within(dir + rest, dir),
        spec_within(path, path),
        spec_within(path, dir) ==> path == dir + path.subrange(dir.len() as int, path.len() as int),
        path.len() < dir.len() ==> !spec_within(path, dir),
{
    assert((dir + rest).subrange(0, dir.len() as int) =~= dir);
    assert(path.subrange(0, path.len() as int) =~= path);
    if spec_within(path, dir) {
        assert(path =~= dir + path.subrange(dir.len() as int, path.len() as int));
    }
}

} // verus!
