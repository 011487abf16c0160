//! The scratch directory of a run and the names of the files in it.

use vstd::prelude::*;
use crate::magick::JobFile;
use crate::text::concat;

verus! {

/// The scratch directory that one run has to itself. Every file that the run
/// writes lies in it until the results are delivered. It also counts the
/// files that were given a number, so that no number is used twice.
#[derive(Debug, Clone)]
pub struct Workspace {
    pub path: String,
    pub issued: usize,
}

/// What a [`Workspace`] holds, as plain values.
pub struct WorkspaceView {
    pub path: Seq<char>,
    pub issued: nat,
}

impl View for Workspace {
    type V = WorkspaceView;

    open spec fn view(&self) -> WorkspaceView {
        WorkspaceView { path: self.path@, issued: self.issued as nat }
    }
}

impl Workspace {
    /// A workspace in the directory `path`, in which no file has a number yet.
    pub fn new(path: String) -> (w: Self)
        ensures
            w@ == (WorkspaceView { path: path@, issued: 0 }),
    {
        Workspace { path, issued: 0 }
    }
}

/// The path of the file `name` in the directory `dir`: a name that starts
/// at the root stands for itself; else the two are joined, with a separator
/// between them unless the directory is empty or ends in one.
pub open spec fn joined(dir: Seq<char>, name: Seq<char>) -> Seq<char> {
    if name.len() > 0 && name[0] == '/' {
        name
    } else if dir.len() > 0 && dir.last() != '/' {
        dir + seq!['/'] + name
    } else {
        dir + name
    }
}

/// Joins a directory and a file name.
pub fn join_path(dir: &str, name: &str) -> (p: String)
    ensures
        p@ == joined(dir@, name@),
{
    let n: usize = name.unicode_len();
    let d: usize = dir.unicode_len();
    proof {
        reveal_strlit("/");
    }
    if n > 0 && name.get_char(0) == '/' {
        String::from_str(name)
    } else if d > 0 && dir.get_char(d - 1) != '/' {
        let mut p: String = concat(dir, "/");
        p.append(name);
        assert(p@ =~= joined(dir@, name@));
        p
    } else {
        concat(dir, name)
    }
}

/// The path that a file has in the workspace.
pub fn get_temp_file_path(dir: &Workspace, identifier: JobFile) -> (p: String)
    ensures
        p@ == joined(dir@.path, identifier@.filename()),
{
    join_path(dir.path.as_str(), identifier.as_filename().as_str())
}

} // verus!
