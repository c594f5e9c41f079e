use trappo::config::FileRead;
use trappo::config_steps::{parse_steps_config_file, StepConfig, StepConfigError, StepPosition};

fn read(text: &str, stage: &str) -> Option<Result<Vec<StepConfig>, StepConfigError>> {
    parse_steps_config_file(FileRead::Contents(text.to_string()), stage)
}

fn step(name: &str, command: &str, position: StepPosition, reference: &str) -> StepConfig {
    StepConfig {
        name: name.to_string(),
        comand: command.to_string(),
        position,
        ref_step: reference.to_string(),
    }
}

const DOCS_STEPS: &str = r#"
[global]
  [[global.steps]]
  name    = "custom:composer:install"
  command = "composer install"
  after   = "git:clone"
[develop]
  [[develop.steps]]
  name    = "notify:webhook"
  command = "curl https://www.third-party/endpoint"
  after   = "core:cleanup:releases"
"#;

#[test]
fn documented_steps_are_read() {
    let steps = read(DOCS_STEPS, "develop").unwrap().unwrap();
    assert_eq!(
        steps,
        vec![
            step("notify:webhook", "curl https://www.third-party/endpoint", StepPosition::After, "core:cleanup:releases"),
            step("custom:composer:install", "composer install", StepPosition::After, "git:clone"),
        ]
    );
    let steps = read(DOCS_STEPS, "staging").unwrap().unwrap();
    assert_eq!(steps, vec![step("custom:composer:install", "composer install", StepPosition::After, "git:clone")]);
}

#[test]
fn global_steps_replace_stage_steps_of_the_same_name() {
    let text = r#"
[[prod.steps]]
name = "notify"
command = "stage command"
before = "core:init"
[[global.steps]]
name = "notify"
command = "global command"
after = "core:link:current"
"#;
    let steps = read(text, "prod").unwrap().unwrap();
    assert_eq!(steps, vec![step("notify", "global command", StepPosition::After, "core:link:current")]);
}

#[test]
fn stage_and_global_steps_are_merged_by_name() {
    let text = r#"
[[prod.steps]]
name = "a"
command = "first a"
before = "core:init"
[[prod.steps]]
name = "b"
command = "stage b"
after = "git:clone"
[[prod.steps]]
name = "a"
command = "second a"
before = "core:init"
[[global.steps]]
name = "b"
command = "global b"
after = "core:link:current"
[[global.steps]]
name = "c"
command = "global c"
before = "core:init"
"#;
    let steps = read(text, "prod").unwrap().unwrap();
    assert_eq!(
        steps,
        vec![
            step("a", "second a", StepPosition::Before, "core:init"),
            step("b", "global b", StepPosition::After, "core:link:current"),
            step("c", "global c", StepPosition::Before, "core:init"),
        ]
    );
}

#[test]
fn step_positions_must_be_unambiguous() {
    let both = "[[prod.steps]]\nname = \"n\"\ncommand = \"c\"\nbefore = \"a\"\nafter = \"b\"\n";
    assert_eq!(read(both, "prod"), Some(Err(StepConfigError::AmbiguousPosition)));
    let neither = "[[prod.steps]]\nname = \"n\"\ncommand = \"c\"\n";
    assert_eq!(read(neither, "prod"), Some(Err(StepConfigError::MissingPosition)));
    let before = "[[prod.steps]]\nname = \"n\"\ncommand = \"c\"\nbefore = \"core:init\"\n";
    assert_eq!(read(before, "prod").unwrap().unwrap(), vec![step("n", "c", StepPosition::Before, "core:init")]);
}

#[test]
fn step_fields_are_checked() {
    let no_name = "[[prod.steps]]\ncommand = \"c\"\nafter = \"a\"\n";
    assert_eq!(read(no_name, "prod"), Some(Err(StepConfigError::MissingField("name".to_string()))));
    let bad_command = "[[prod.steps]]\nname = \"n\"\ncommand = 1\nafter = \"a\"\n";
    assert_eq!(
        read(bad_command, "prod"),
        Some(Err(StepConfigError::BadType("command".to_string(), "string".to_string())))
    );
    let bad_ref = "[[prod.steps]]\nname = \"n\"\ncommand = \"c\"\nbefore = 2\n";
    assert_eq!(read(bad_ref, "prod"), Some(Err(StepConfigError::BadType("before".to_string(), "string".to_string()))));
}

#[test]
fn steps_file_absence_and_failures() {
    assert_eq!(parse_steps_config_file(FileRead::NotFound, "prod"), Some(Ok(Vec::new())));
    assert_eq!(parse_steps_config_file(FileRead::OpenFailed, "prod"), Some(Err(StepConfigError::IoError)));
    assert_eq!(parse_steps_config_file(FileRead::ReadFailed, "prod"), Some(Err(StepConfigError::IoError)));
    assert_eq!(read("[[prod.steps]\n", "prod"), None);
    assert_eq!(read("[other]\nx = 1\n", "prod"), Some(Ok(Vec::new())));
}

#[test]
fn step_config_error_messages() {
    assert_eq!(
        StepConfigError::MissingField("name".to_string()).message(),
        "Required field 'name' is missing from steps config file"
    );
    assert_eq!(
        StepConfigError::AmbiguousPosition.message(),
        "Ambiguous step position, only one of before and after fields is allowed, not both."
    );
    assert_eq!(
        StepConfigError::MissingPosition.message(),
        "Step postion is missing, define the position of the step using \"before\" or \"after\" fields."
    );
}
