use vstd::prelude::*;

use crate::error::StackError;

verus! {

/// What a look at one directory found: whether it directly holds the
/// workspace manifest file and the packages subdirectory.
pub struct DirProbe {
    pub path: String,
    pub has_manifest: bool,
    pub has_packages_dir: bool,
}

pub open spec fn marks_root(d: DirProbe) -> bool {
    d.has_manifest && d.has_packages_dir
}

/// The path of the first directory in `dirs` that marks a workspace root.
pub open spec fn first_root(dirs: Seq<DirProbe>) -> Option<Seq<char>>
    decreases dirs.len(),
{
    if dirs.len() == 0 {
        None
    } else if marks_root(dirs[0]) {
        Some(dirs[0].path@)
    } else {
        first_root(dirs.drop_first())
    }
}

/// The workspace root: the override verbatim; else the closest ancestor of
/// the start directory that is marked; else the working directory if marked.
pub open spec fn workspace_root_of(
    override_root: Option<String>,
    ancestors: Seq<DirProbe>,
    cwd: Option<DirProbe>,
) -> Option<Seq<char>> {
    match override_root {
        Some(o) => Some(o@),
        None => match first_root(ancestors) {
            Some(p) => Some(p),
            None => match cwd {
                Some(c) => if marks_root(c) {
                    Some(c.path@)
                } else {
                    None
                },
                None => None,
            },
        },
    }
}

/// A directory is a workspace root iff it holds both markers.
pub fn is_workspace_root(dir: &DirProbe) -> (r: bool)
    ensures
        r == marks_root(*dir),
{
    dir.has_manifest && dir.has_packages_dir
}

proof fn lemma_first_root_skip(dirs: Seq<DirProbe>, i: int)
    requires
        0 <= i < dirs.len(),
        !marks_root(dirs[i]),
    ensures
        first_root(dirs.subrange(i, dirs.len() as int)) == first_root(
            dirs.subrange(i + 1, dirs.len() as int),
        ),
{
    assert(dirs.subrange(i, dirs.len() as int).drop_first() =~= dirs.subrange(
        i + 1,
        dirs.len() as int,
    ));
}

/// Finds the workspace root. `ancestors` are the start directory and its
/// ancestors, closest first; `cwd` is the working directory, if it could be read.
pub fn resolve_workspace_root(
    override_root: &Option<String>,
    ancestors: &Vec<DirProbe>,
    cwd: &Option<DirProbe>,
) -> (r: Result<String, StackError>)
    ensures
        match workspace_root_of(*override_root, ancestors@, *cwd) {
            Some(p) => r is Ok && r->Ok_0@ == p,
            None => r is Err && r->Err_0 is WorkspaceNotFound,
        },
{
    if let Some(o) = override_root {
        return Ok(o.clone());
    }
    let mut i: usize = 0;
    assert(ancestors@.subrange(0, ancestors@.len() as int) =~= ancestors@);
    while i < ancestors.len()
        invariant
            i <= ancestors@.len(),
            override_root.is_none(),
            first_root(ancestors@) == first_root(
                ancestors@.subrange(i as int, ancestors@.len() as int),
            ),
        decreases ancestors.len() - i,
    {
        if is_workspace_root(&ancestors[i]) {
            assert(ancestors@.subrange(i as int, ancestors@.len() as int)[0] == ancestors@[i as int]);
            return Ok(ancestors[i].path.clone());
        }
        proof {
            lemma_first_root_skip(ancestors@, i as int);
        }
        i = i + 1;
    }
    if let Some(c) = cwd {
        if is_workspace_root(c) {
            return Ok(c.path.clone());
        }
    }
    Err(StackError::WorkspaceNotFound)
}

} // verus!
