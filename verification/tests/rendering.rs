use cscaffold::runner::classify_cmd_result;
use cscaffold::runner::CmdOutcome;
use cscaffold::runner::CmdResult;
use cscaffold::templates::build_dir_path;
use cscaffold::templates::framed_output;
use cscaffold::templates::git_init_cmd;
use cscaffold::templates::include_dir_path;
use cscaffold::templates::main_file_contents;
use cscaffold::templates::main_file_path;
use cscaffold::templates::makefile_contents;
use cscaffold::templates::makefile_path;
use cscaffold::templates::setup_header;
use cscaffold::templates::test_run_cmd;

#[test]
fn makefile_is_rendered_exactly() {
    let p = "demo";
    let expected = format!(
        "CC = gcc\nCFLAGS = -Wall -Wextra \nLIBS   = \nSOURCE = {p}.c\nTARGET = build/{p}\n\
         HEADER = include/cx.h\n\nall: $(TARGET)\n\nCLANG ?= n\nGDB ?= n\n\
         RUN_CMD ?= ./$(TARGET)\n\nifeq ($(GDB), y)\n    CFLAGS += -ggdb\n\
         \tRUN_CMD = gdb ./$(TARGET)\t\nendif\n\nifeq ($(CLANG),y)\n\tCC = clang\n\
         \tCFLAGS += -fsanitize=address\nendif\n\n$(TARGET): $(SOURCE) $(HEADER)\n\
         \t$(CC) $(LIBS) $(CFLAGS) $< -o $@\n\nclean:\n\trm -f $(TARGET)\n\n\
         .PHONY: run all clean\n\nrun: $(TARGET)\n\t$(RUN_CMD)\n"
    );
    assert_eq!(makefile_contents(p), expected);
}

#[test]
fn makefile_names_the_project_as_stem_and_target() {
    let m = makefile_contents("widget");
    assert!(m.contains("SOURCE = widget.c\n"));
    assert!(m.contains("TARGET = build/widget\n"));
}

#[test]
fn source_stub_is_rendered_exactly() {
    let expected = "/* demo.c */\n#define CX_STRIP_PREFIX\n#include \"include/cx.h\"\n\n\
                    int main(void) {\n    println(\"Hello,World\");\n\n    return 0;\n}";
    assert_eq!(main_file_contents("demo"), expected);
}

#[test]
fn fetch_command_targets_the_header_directory() {
    let expected = "wget https://raw.githubusercontent.com/BayonetArch/cx.h\
                    /refs/heads/master/cx.h -O ./demo/include/cx.h";
    assert_eq!(setup_header("demo"), expected);
}

#[test]
fn git_init_command_targets_the_project() {
    assert_eq!(git_init_cmd("demo"), "git init ./demo");
}

#[test]
fn verification_run_command_is_rendered_exactly() {
    assert_eq!(test_run_cmd("demo"), "make --no-print-directory  -C ./demo run");
}

#[test]
fn the_paths_of_the_scaffold_are_rendered_exactly() {
    assert_eq!(include_dir_path("demo"), "demo/include");
    assert_eq!(makefile_path("demo"), "./demo/Makefile");
    assert_eq!(build_dir_path("demo"), "./demo/build");
    assert_eq!(main_file_path("demo"), "./demo/demo.c");
}

#[test]
fn output_is_framed_between_separator_lines() {
    let line = "-".repeat(50);
    let expected = format!("{line}\nhello\n{line}\n");
    assert_eq!(framed_output("hello\n"), expected);
    let unterminated = format!("{line}\nhello{line}\n");
    assert_eq!(framed_output("hello"), unterminated);
}

#[test]
fn a_successful_command_keeps_its_output() {
    let res = CmdResult {
        succeeded: true,
        stdout: "Hello,World\n".to_string(),
        stderr: String::new(),
    };
    assert_eq!(classify_cmd_result(res), CmdOutcome::Output("Hello,World\n".to_string()));
}

#[test]
fn a_failed_command_aborts_with_its_error_text() {
    let res = CmdResult {
        succeeded: false,
        stdout: "partial\n".to_string(),
        stderr: "wget: unable to resolve host\n".to_string(),
    };
    assert_eq!(
        classify_cmd_result(res),
        CmdOutcome::Abort("wget: unable to resolve host\n".to_string())
    );
}
