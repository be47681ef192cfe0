use vstd::prelude::*;

verus! {

/// What the command line asked for: the project's name, once one has been
/// seen, and whether a version-control repository should be initialized.
#[derive(Debug, PartialEq)]
pub struct Opts {
    pub project_name: Option<String>,
    pub git_project: bool,
}

impl Opts {
    /// A fresh configuration: no project name seen yet, no repository.
    pub fn new() -> (o: Opts)
        ensures
            o.project_name is None,
            !o.git_project,
    {
        Opts { project_name: None, git_project: false }
    }
}

} // verus!
