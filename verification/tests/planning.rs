use cscaffold::plan::scaffold_plan;
use cscaffold::plan::Action;
use cscaffold::templates::main_file_contents;
use cscaffold::templates::makefile_contents;
use cscaffold::templates::setup_header;

#[test]
fn the_plan_without_version_control_has_seven_steps_in_order() {
    let plan = scaffold_plan("demo", false);
    let expected = vec![
        Action::CreateDir("demo".to_string()),
        Action::CreateDir("demo/include".to_string()),
        Action::WriteFile("./demo/Makefile".to_string(), makefile_contents("demo")),
        Action::CreateDir("./demo/build".to_string()),
        Action::Run(setup_header("demo")),
        Action::WriteFile("./demo/demo.c".to_string(), main_file_contents("demo")),
        Action::RunShow("make --no-print-directory  -C ./demo run".to_string()),
    ];
    assert_eq!(plan, expected);
}

#[test]
fn the_plan_with_version_control_adds_one_command_third() {
    let plan = scaffold_plan("demo", true);
    assert_eq!(plan.len(), 8);
    assert_eq!(plan[2], Action::Run("git init ./demo".to_string()));
    let without = scaffold_plan("demo", false);
    assert_eq!(plan[0], without[0]);
    assert_eq!(plan[1], without[1]);
    assert_eq!(plan[3..], without[2..]);
}

#[test]
fn the_first_step_creates_the_project_root() {
    for git in [false, true] {
        let plan = scaffold_plan("fresh", git);
        assert_eq!(plan[0], Action::CreateDir("fresh".to_string()));
    }
}

#[test]
fn the_fetch_comes_before_the_source_stub() {
    for git in [false, true] {
        let plan = scaffold_plan("demo", git);
        let fetch = plan
            .iter()
            .position(|a| matches!(a, Action::Run(c) if c == &setup_header("demo")))
            .unwrap();
        let stub = plan
            .iter()
            .position(|a| matches!(a, Action::WriteFile(p, _) if p == "./demo/demo.c"))
            .unwrap();
        assert!(fetch < stub);
    }
}
