use vstd::prelude::*;

verus! {

// ---------------------------------------------------------------------------
// The rendered texts, as mathematical functions of the project name.
// ---------------------------------------------------------------------------
/// The generated build configuration. The project name is the source file
/// stem and the target binary name; the file also carries toggles for a
/// debugger build and a sanitizer build.
pub open spec fn makefile_text(pn: Seq<char>) -> Seq<char> {
    "CC = gcc\nCFLAGS = -Wall -Wextra \nLIBS   = \nSOURCE = "@ + pn + ".c\nTARGET = build/"@
        + pn
        + "\nHEADER = include/cx.h\n\nall: $(TARGET)\n\nCLANG ?= n\nGDB ?= n\nRUN_CMD ?= ./$(TARGET)\n\nifeq ($(GDB), y)\n    CFLAGS += -ggdb\n\tRUN_CMD = gdb ./$(TARGET)\t\nendif\n\nifeq ($(CLANG),y)\n\tCC = clang\n\tCFLAGS += -fsanitize=address\nendif\n\n$(TARGET): $(SOURCE) $(HEADER)\n\t$(CC) $(LIBS) $(CFLAGS) $< -o $@\n\nclean:\n\trm -f $(TARGET)\n\n.PHONY: run all clean\n\nrun: $(TARGET)\n\t$(RUN_CMD)\n"@
}

/// The generated source stub: a minimal entry point that prints a greeting.
/// The project name appears only in the leading comment.
pub open spec fn main_file_text(pn: Seq<char>) -> Seq<char> {
    "/* "@ + pn
        + ".c */\n#define CX_STRIP_PREFIX\n#include \"include/cx.h\"\n\nint main(void) {\n    println(\"Hello,World\");\n\n    return 0;\n}"@
}

/// The command that downloads the single-header library into the project's
/// header directory, from its fixed upstream URL.
pub open spec fn fetch_cmd_text(pn: Seq<char>) -> Seq<char> {
    "wget https://raw.githubusercontent.com/BayonetArch/cx.h/refs/heads/master/cx.h -O ./"@ + pn
        + "/include/cx.h"@
}

/// The command that initializes a version-control repository in the project
/// directory.
pub open spec fn git_init_cmd_text(pn: Seq<char>) -> Seq<char> {
    "git init ./"@ + pn
}

/// The command of the verification run: build the fresh project and run it.
pub open spec fn test_run_cmd_text(pn: Seq<char>) -> Seq<char> {
    "make --no-print-directory  -C ./"@ + pn + " run"@
}

/// The path of the header directory inside the project.
pub open spec fn include_dir_text(pn: Seq<char>) -> Seq<char> {
    pn + "/include"@
}

/// The path the build configuration is written to.
pub open spec fn makefile_path_text(pn: Seq<char>) -> Seq<char> {
    "./"@ + pn + "/Makefile"@
}

/// The path of the directory that build output goes to.
pub open spec fn build_dir_text(pn: Seq<char>) -> Seq<char> {
    "./"@ + pn + "/build"@
}

/// The path the source stub is written to.
pub open spec fn main_file_path_text(pn: Seq<char>) -> Seq<char> {
    "./"@ + pn + "/"@ + pn + ".c"@
}

/// The captured output of the verification run, framed between two
/// separator lines for human inspection.
pub open spec fn framed_text(out: Seq<char>) -> Seq<char> {
    "--------------------------------------------------\n"@ + out
        + "--------------------------------------------------\n"@
}

// ---------------------------------------------------------------------------
// The renderers.
// ---------------------------------------------------------------------------
/// Renders the build configuration for a project, exactly as
/// [`makefile_text`] states.
pub fn makefile_contents(pn: &str) -> (r: String)
    ensures
        r@ == makefile_text(pn@),
{
    let mut s = String::new();
    s.append("CC = gcc\nCFLAGS = -Wall -Wextra \nLIBS   = \nSOURCE = ");
    s.append(pn);
    s.append(".c\nTARGET = build/");
    s.append(pn);
    s.append(
        "\nHEADER = include/cx.h\n\nall: $(TARGET)\n\nCLANG ?= n\nGDB ?= n\nRUN_CMD ?= ./$(TARGET)\n\nifeq ($(GDB), y)\n    CFLAGS += -ggdb\n\tRUN_CMD = gdb ./$(TARGET)\t\nendif\n\nifeq ($(CLANG),y)\n\tCC = clang\n\tCFLAGS += -fsanitize=address\nendif\n\n$(TARGET): $(SOURCE) $(HEADER)\n\t$(CC) $(LIBS) $(CFLAGS) $< -o $@\n\nclean:\n\trm -f $(TARGET)\n\n.PHONY: run all clean\n\nrun: $(TARGET)\n\t$(RUN_CMD)\n",
    );
    proof {
        assert(s@ =~= makefile_text(pn@));
    }
    s
}

/// Renders the source stub for a project, exactly as [`main_file_text`]
/// states.
pub fn main_file_contents(pn: &str) -> (r: String)
    ensures
        r@ == main_file_text(pn@),
{
    let mut s = String::new();
    s.append("/* ");
    s.append(pn);
    s.append(
        ".c */\n#define CX_STRIP_PREFIX\n#include \"include/cx.h\"\n\nint main(void) {\n    println(\"Hello,World\");\n\n    return 0;\n}",
    );
    proof {
        assert(s@ =~= main_file_text(pn@));
    }
    s
}

/// Builds the download command for the project's single-header library,
/// exactly as [`fetch_cmd_text`] states.
pub fn setup_header(pn: &str) -> (cmd: String)
    ensures
        cmd@ == fetch_cmd_text(pn@),
{
    let mut s = String::new();
    s.append("wget https://raw.githubusercontent.com/BayonetArch/cx.h/refs/heads/master/cx.h -O ./");
    s.append(pn);
    s.append("/include/cx.h");
    proof {
        assert(s@ =~= fetch_cmd_text(pn@));
    }
    s
}

/// Builds the version-control initialization command.
pub fn git_init_cmd(pn: &str) -> (cmd: String)
    ensures
        cmd@ == git_init_cmd_text(pn@),
{
    let mut s = String::new();
    s.append("git init ./");
    s.append(pn);
    proof {
        assert(s@ =~= git_init_cmd_text(pn@));
    }
    s
}

/// Builds the verification-run command.
pub fn test_run_cmd(pn: &str) -> (cmd: String)
    ensures
        cmd@ == test_run_cmd_text(pn@),
{
    let mut s = String::new();
    s.append("make --no-print-directory  -C ./");
    s.append(pn);
    s.append(" run");
    proof {
        assert(s@ =~= test_run_cmd_text(pn@));
    }
    s
}

/// Builds the path of the header directory.
pub fn include_dir_path(pn: &str) -> (r: String)
    ensures
        r@ == include_dir_text(pn@),
{
    let mut s = String::from_str(pn);
    s.append("/include");
    proof {
        assert(s@ =~= include_dir_text(pn@));
    }
    s
}

/// Builds the path of the build configuration file.
pub fn makefile_path(pn: &str) -> (r: String)
    ensures
        r@ == makefile_path_text(pn@),
{
    let mut s = String::new();
    s.append("./");
    s.append(pn);
    s.append("/Makefile");
    proof {
        assert(s@ =~= makefile_path_text(pn@));
    }
    s
}

/// Builds the path of the build-output directory.
pub fn build_dir_path(pn: &str) -> (r: String)
    ensures
        r@ == build_dir_text(pn@),
{
    let mut s = String::new();
    s.append("./");
    s.append(pn);
    s.append("/build");
    proof {
        assert(s@ =~= build_dir_text(pn@));
    }
    s
}

/// Builds the path of the source stub.
pub fn main_file_path(pn: &str) -> (r: String)
    ensures
        r@ == main_file_path_text(pn@),
{
    let mut s = String::new();
    s.append("./");
    s.append(pn);
    s.append("/");
    s.append(pn);
    s.append(".c");
    proof {
        assert(s@ =~= main_file_path_text(pn@));
    }
    s
}

/// Frames captured output between two separator lines, exactly as
/// [`framed_text`] states.
pub fn framed_output(out: &str) -> (r: String)
    ensures
        r@ == framed_text(out@),
{
    let mut s = String::new();
    s.append("--------------------------------------------------\n");
    s.append(out);
    s.append("--------------------------------------------------\n");
    proof {
        assert(s@ =~= framed_text(out@));
    }
    s
}

} // verus!
