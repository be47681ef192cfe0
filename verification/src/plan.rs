use crate::templates::build_dir_path;
use crate::templates::build_dir_text;
use crate::templates::fetch_cmd_text;
use crate::templates::git_init_cmd;
use crate::templates::git_init_cmd_text;
use crate::templates::include_dir_path;
use crate::templates::include_dir_text;
use crate::templates::main_file_contents;
use crate::templates::main_file_path;
use crate::templates::main_file_path_text;
use crate::templates::main_file_text;
use crate::templates::makefile_contents;
use crate::templates::makefile_path;
use crate::templates::makefile_path_text;
use crate::templates::makefile_text;
use crate::templates::setup_header;
use crate::templates::test_run_cmd;
use crate::templates::test_run_cmd_text;
use vstd::prelude::*;

verus! {

/// One step of a scaffolding run, for the executor to perform against the
/// real filesystem and shell. Directory and file creation must fail rather
/// than touch anything that already exists; a command is run through the
/// system shell, and one that exits non-zero aborts the whole run. The
/// executor performs the steps in order and never goes past a failure.
#[derive(Debug, PartialEq)]
pub enum Action {
    /// Create a directory; fail if it already exists.
    CreateDir(String),
    /// Create a file with the given contents; fail rather than overwrite.
    WriteFile(String, String),
    /// Run a shell command, discarding its output on success.
    Run(String),
    /// Run a shell command and show its framed output on success.
    RunShow(String),
}

/// The mathematical shape of an action, over sequences of characters.
pub enum ActionV {
    CreateDir(Seq<char>),
    WriteFile(Seq<char>, Seq<char>),
    Run(Seq<char>),
    RunShow(Seq<char>),
}

impl View for Action {
    type V = ActionV;

    open spec fn view(&self) -> ActionV {
        match self {
            Action::CreateDir(p) => ActionV::CreateDir(p@),
            Action::WriteFile(p, c) => ActionV::WriteFile(p@, c@),
            Action::Run(c) => ActionV::Run(c@),
            Action::RunShow(c) => ActionV::RunShow(c@),
        }
    }
}

/// The full scaffolding sequence for a project: create the project root,
/// create the header directory, initialize version control when asked to,
/// write the build configuration and create the build directory, fetch the
/// remote header, write the source stub, and finish with the verification
/// run.
pub open spec fn plan_spec(pn: Seq<char>, git: bool) -> Seq<ActionV> {
    if git {
        seq![
            ActionV::CreateDir(pn),
            ActionV::CreateDir(include_dir_text(pn)),
            ActionV::Run(git_init_cmd_text(pn)),
            ActionV::WriteFile(makefile_path_text(pn), makefile_text(pn)),
            ActionV::CreateDir(build_dir_text(pn)),
            ActionV::Run(fetch_cmd_text(pn)),
            ActionV::WriteFile(main_file_path_text(pn), main_file_text(pn)),
            ActionV::RunShow(test_run_cmd_text(pn)),
        ]
    } else {
        seq![
            ActionV::CreateDir(pn),
            ActionV::CreateDir(include_dir_text(pn)),
            ActionV::WriteFile(makefile_path_text(pn), makefile_text(pn)),
            ActionV::CreateDir(build_dir_text(pn)),
            ActionV::Run(fetch_cmd_text(pn)),
            ActionV::WriteFile(main_file_path_text(pn), main_file_text(pn)),
            ActionV::RunShow(test_run_cmd_text(pn)),
        ]
    }
}

/// Builds the ordered plan of a scaffolding run, exactly as [`plan_spec`]
/// states.
pub fn scaffold_plan(pn: &str, git_project: bool) -> (plan: Vec<Action>)
    ensures
        plan@.map_values(|a: Action| a@) == plan_spec(pn@, git_project),
{
    let root = String::from_str(pn);
    let inc = include_dir_path(pn);
    let mk_path = makefile_path(pn);
    let mk = makefile_contents(pn);
    let bld = build_dir_path(pn);
    let fetch = setup_header(pn);
    let stub_path = main_file_path(pn);
    let stub = main_file_contents(pn);
    let check_run = test_run_cmd(pn);
    let plan: Vec<Action> = if git_project {
        let git = git_init_cmd(pn);
        vec![
            Action::CreateDir(root),
            Action::CreateDir(inc),
            Action::Run(git),
            Action::WriteFile(mk_path, mk),
            Action::CreateDir(bld),
            Action::Run(fetch),
            Action::WriteFile(stub_path, stub),
            Action::RunShow(check_run),
        ]
    } else {
        vec![
            Action::CreateDir(root),
            Action::CreateDir(inc),
            Action::WriteFile(mk_path, mk),
            Action::CreateDir(bld),
            Action::Run(fetch),
            Action::WriteFile(stub_path, stub),
            Action::RunShow(check_run),
        ]
    };
    proof {
        assert(plan@.map_values(|a: Action| a@) =~= plan_spec(pn@, git_project));
    }
    plan
}

/// Law: every plan begins by creating the project root directory. Since
/// directory creation fails on an existing directory and the executor
/// never goes past a failure, a second run against the same existing
/// project fails at this very first step and overwrites nothing.
pub proof fn lemma_first_action_creates_root(pn: Seq<char>, git: bool)
    ensures
        plan_spec(pn, git).len() > 0,
        plan_spec(pn, git)[0] == ActionV::CreateDir(pn),
{
}

/// Law: in every plan the remote fetch command stands strictly before the
/// write of the source stub, and no earlier step writes to the stub's
/// path. An executor that stops at the first failure therefore never
/// writes the source stub once the fetch has exited non-zero.
pub proof fn lemma_fetch_precedes_stub(pn: Seq<char>, git: bool)
    ensures
        ({
            let p = plan_spec(pn, git);
            let fetch_at: int = if git { 5 } else { 4 };
            &&& p[fetch_at] == ActionV::Run(fetch_cmd_text(pn))
            &&& p[fetch_at + 1] == ActionV::WriteFile(main_file_path_text(pn), main_file_text(pn))
            &&& forall|j: int|
                0 <= j <= fetch_at ==> !(#[trigger] p[j] matches ActionV::WriteFile(path, c)
                    && path == main_file_path_text(pn))
        }),
{
    lemma_stub_path_is_its_own(pn);
}

/// The build configuration and the source stub go to different paths: the
/// one ends in the build file's fixed name, the other in the source
/// extension.
proof fn lemma_stub_path_is_its_own(pn: Seq<char>)
    ensures
        makefile_path_text(pn) != main_file_path_text(pn),
{
    reveal_strlit("./");
    reveal_strlit("/");
    reveal_strlit("/Makefile");
    reveal_strlit(".c");
    let a = makefile_path_text(pn);
    let b = main_file_path_text(pn);
    assert(a.len() == pn.len() + 11);
    assert(b.len() == 2 * pn.len() + 5);
    assert(a[a.len() - 1] == 'e');
    assert(b[b.len() - 1] == 'c');
    if a == b {
        assert(a[a.len() - 1] == b[b.len() - 1]);
        assert(false);
    }
}

} // verus!
