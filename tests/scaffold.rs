use std::collections::{BTreeMap, BTreeSet};

use cargo_pgx::layout::{scaffold_steps, Step};
use cargo_pgx::pipeline::Driver;
use cargo_pgx::process::{check_exit, ProcessFailure};
use cargo_pgx::some_value::{get_some_value_name, SomeValue};
use cargo_pgx::template::Template;

/// An in-memory project root and working directory that performs steps.
#[derive(Default)]
struct FakeWorld {
    in_root: bool,
    dirs: BTreeSet<String>,
    files: BTreeMap<String, String>,
    performed: Vec<String>,
}

impl FakeWorld {
    fn perform(&mut self, step: &Step) {
        match step {
            Step::MakeDir(p) => {
                self.dirs.insert(p.clone());
            }
            Step::WriteFile(p, c) => {
                self.files.insert(p.clone(), c.clone());
            }
            Step::EnterProjectRoot => self.in_root = true,
            Step::RestoreWorkingDir => self.in_root = false,
            _ => {}
        }
        self.performed.push(format!("{:?}", step).split('(').next().unwrap().to_string());
    }
}

/// Runs the plan for `name`; each step whose index is in `fail_at` fails,
/// with no effect and an error naming it.
fn drive(world: &mut FakeWorld, name: &str, fail_at: &[usize]) -> Result<(), String> {
    let mut driver: Driver<String> = Driver::new(name);
    let mut index = 0usize;
    loop {
        let step = driver.current();
        let outcome = if fail_at.contains(&index) {
            world.performed.push(format!("failed {}", index));
            Err(format!("step {} failed", index))
        } else {
            world.perform(step);
            Ok(())
        };
        if let Some(result) = driver.record(outcome) {
            assert!(driver.is_finished());
            return result;
        }
        index += 1;
    }
}

fn set(items: &[&str]) -> BTreeSet<String> {
    items.iter().map(|s| s.to_string()).collect()
}

#[test]
fn manifest_template_substitutes_demo() {
    let text = Template::Manifest.render("demo");
    assert!(text.contains("name = \"demo\""));
    assert!(text.starts_with("[package]\nname = \"demo\"\nversion"));
}

#[test]
fn manifest_template_leaves_quote_unescaped() {
    let text = Template::Manifest.render("de\"mo");
    assert!(text.contains("name = \"de\"mo\"\n"));
    assert!(!text.contains("\\\""));
}

#[test]
fn control_and_stub_templates_take_the_name() {
    let control = Template::Control.render("demo");
    assert!(control.contains("module_pathname = '$libdir/demo'\n"));
    let stub = Template::SourceStub.render("demo");
    assert!(stub.contains("\"Hello, demo\"\n}\n"));
}

#[test]
fn verbatim_templates_ignore_the_name() {
    assert_eq!(Template::ToolConfig.render("demo"), Template::ToolConfig.render("other"));
    assert!(!Template::IgnoreRules.render("demo").contains("demo"));
    assert!(Template::IgnoreRules.render("demo").contains("/target\n"));
    assert!(Template::ToolConfig.takes_name() == false);
    assert!(Template::Manifest.takes_name());
}

#[test]
fn plan_has_fixed_order() {
    let steps = scaffold_steps("demo");
    assert_eq!(steps.len(), 13);
    let kinds: Vec<String> = steps
        .iter()
        .map(|s| format!("{:?}", s).split('(').next().unwrap().to_string())
        .collect();
    assert_eq!(
        kinds,
        vec![
            "MakeDir", "MakeDir", "MakeDir", "WriteFile", "WriteFile", "WriteFile", "WriteFile",
            "WriteFile", "EnterProjectRoot", "GenerateMetadata", "RestoreWorkingDir",
            "InitRepository", "StageAll"
        ]
    );
    assert!(matches!(&steps[3], Step::WriteFile(p, _) if p == "demo.control"));
    assert!(matches!(&steps[5], Step::WriteFile(p, _) if p == ".cargo/config"));
}

#[test]
fn fresh_run_produces_the_layout() {
    let mut world = FakeWorld::default();
    assert_eq!(drive(&mut world, "demo", &[]), Ok(()));
    assert_eq!(world.dirs, set(&["src", ".cargo", "sql"]));
    let paths: BTreeSet<String> = world.files.keys().cloned().collect();
    assert_eq!(
        paths,
        set(&["demo.control", "Cargo.toml", ".cargo/config", "src/lib.rs", ".gitignore"])
    );
    assert!(world.files.values().all(|c| !c.is_empty()));
    assert!(world.files.keys().all(|p| !p.starts_with("sql/")));
    assert_eq!(world.files["Cargo.toml"], Template::Manifest.render("demo"));
}

#[test]
fn rerun_overwrites_without_error() {
    let mut world = FakeWorld::default();
    world.files.insert("Cargo.toml".to_string(), "stale".to_string());
    assert_eq!(drive(&mut world, "demo", &[]), Ok(()));
    let dirs = world.dirs.clone();
    let files = world.files.clone();
    assert_eq!(files["Cargo.toml"], Template::Manifest.render("demo"));
    assert_eq!(drive(&mut world, "demo", &[]), Ok(()));
    assert_eq!(world.dirs, dirs);
    assert_eq!(world.files, files);
}

#[test]
fn repository_failure_keeps_written_files() {
    let mut full = FakeWorld::default();
    drive(&mut full, "demo", &[]).unwrap();
    let mut world = FakeWorld::default();
    assert_eq!(drive(&mut world, "demo", &[11]), Err("step 11 failed".to_string()));
    assert_eq!(world.dirs, full.dirs);
    assert_eq!(world.files, full.files);
    assert_eq!(world.performed.last().unwrap(), "failed 11");
    assert!(!world.in_root);
}

#[test]
fn success_restores_working_dir() {
    let mut world = FakeWorld::default();
    assert_eq!(drive(&mut world, "demo", &[]), Ok(()));
    assert!(!world.in_root);
}

#[test]
fn generator_failure_restores_working_dir() {
    let mut world = FakeWorld::default();
    assert_eq!(drive(&mut world, "demo", &[9]), Err("step 9 failed".to_string()));
    assert!(!world.in_root);
    assert_eq!(world.performed[9], "failed 9");
    assert_eq!(world.performed[10], "RestoreWorkingDir");
    assert_eq!(world.performed.len(), 11);
}

#[test]
fn generator_error_wins_over_restore_error() {
    let mut world = FakeWorld::default();
    assert_eq!(drive(&mut world, "demo", &[9, 10]), Err("step 9 failed".to_string()));
    assert!(world.in_root);
    assert_eq!(world.performed.len(), 11);
}

#[test]
fn early_failure_stops_the_run() {
    let mut world = FakeWorld::default();
    assert_eq!(drive(&mut world, "demo", &[4]), Err("step 4 failed".to_string()));
    assert_eq!(world.performed.len(), 5);
    assert_eq!(world.files.len(), 1);
    assert!(!world.in_root);
}

#[test]
fn entering_root_failure_stops_before_generator() {
    let mut world = FakeWorld::default();
    assert_eq!(drive(&mut world, "demo", &[8]), Err("step 8 failed".to_string()));
    assert_eq!(world.performed.len(), 9);
    assert!(!world.in_root);
}

#[test]
fn exit_codes_map_to_outcomes() {
    assert_eq!(check_exit(Some(0)), Ok(()));
    assert_eq!(check_exit(Some(128)), Err(ProcessFailure::ExitCode(128)));
    assert_eq!(check_exit(Some(-1)), Err(ProcessFailure::ExitCode(-1)));
    assert_eq!(check_exit(None), Err(ProcessFailure::Terminated));
}

#[test]
fn some_value_names() {
    assert_eq!(get_some_value_name(SomeValue::One), "1: one");
    assert_eq!(get_some_value_name(SomeValue::Three), "3: three");
    assert_eq!(SomeValue::Five.to_string(), "5: five");
    assert_eq!(SomeValue::Two.to_string(), "2: two");
    assert_eq!(SomeValue::Four.to_string(), "4: four");
}
