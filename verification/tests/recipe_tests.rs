use trappo::config_steps::{StepConfig, StepPosition};
use trappo::recipe::Recipe;
use trappo::steps::core_steps::{InitStep, RawCmdStep};
use trappo::steps::Step;

fn names(steps: &[Step]) -> Vec<String> {
    steps.iter().map(|s| s.get_name().to_string()).collect()
}

fn raw(name: &str) -> Step {
    Step::RawCmd(RawCmdStep { name: name.to_string(), raw_cmd: format!("run {}", name) })
}

#[test]
fn core_recipe_has_the_documented_steps() {
    let recipe = Recipe::build().name("Main Recipe").with_core_steps().with_core_rollback_steps().finish();
    assert_eq!(recipe.name, "Main Recipe");
    assert_eq!(
        names(&recipe.steps),
        vec![
            "core:init",
            "git:clone",
            "core:link:files",
            "core:link:directories",
            "core:link:current",
            "core:cleanup:releases"
        ]
    );
    assert_eq!(names(&recipe.rollback_steps), vec!["rollback:check", "rollback:rm:latest", "rollback:symlink:previous"]);
}

#[test]
fn anonymous_recipe_is_empty() {
    let recipe = Recipe::build().finish();
    assert_eq!(recipe.name, "Anonymous Recipe");
    assert!(recipe.steps.is_empty());
    assert!(recipe.rollback_steps.is_empty());
}

#[test]
fn steps_are_placed_relative_to_others() {
    let recipe = Recipe::build()
        .with_core_steps()
        .with_step_after("git:clone", raw("composer"))
        .with_step_before("core:init", raw("announce"))
        .with_step_after("core:cleanup:releases", raw("notify"))
        .finish();
    assert_eq!(
        names(&recipe.steps),
        vec![
            "announce",
            "core:init",
            "git:clone",
            "composer",
            "core:link:files",
            "core:link:directories",
            "core:link:current",
            "core:cleanup:releases",
            "notify"
        ]
    );
    assert_eq!(recipe.get_step_index("composer"), Some(3));
    assert_eq!(recipe.get_step_index("missing"), None);
}

#[test]
fn duplicate_names_resolve_to_the_first_step() {
    let recipe = Recipe { name: "r".to_string(), steps: vec![raw("x"), Step::Init(InitStep), raw("x")], rollback_steps: vec![] };
    assert_eq!(recipe.get_step_index("x"), Some(0));
    let mut builder = trappo::recipe::RecipeBuilder { recipe: Some(recipe) };
    let recipe = builder.with_step_after("x", raw("y")).finish();
    assert_eq!(names(&recipe.steps), vec!["x", "y", "core:init", "x"]);
}

#[test]
fn custom_steps_follow_their_configuration() {
    let mut builder = Recipe::build();
    builder.with_core_steps();
    assert!(builder.accepts_reference("git:clone"));
    assert!(!builder.accepts_reference("nope"));
    builder.with_config_step(StepConfig {
        name: "custom:composer:install".to_string(),
        comand: "composer install".to_string(),
        position: StepPosition::After,
        ref_step: "git:clone".to_string(),
    });
    builder.with_config_step(StepConfig {
        name: "warm".to_string(),
        comand: "cache:warm".to_string(),
        position: StepPosition::Before,
        ref_step: "core:link:current".to_string(),
    });
    let recipe = builder.finish();
    assert_eq!(recipe.steps[2], Step::RawCmd(RawCmdStep {
        name: "custom:composer:install".to_string(),
        raw_cmd: "composer install".to_string(),
    }));
    assert_eq!(names(&recipe.steps)[5], "warm");
    assert!(builder.accepts_reference("anything"));
    builder.with_core_steps();
    assert!(builder.recipe.is_none());
}

#[test]
fn default_recipe_and_step_from_configuration() {
    let recipe = Recipe::default();
    assert_eq!(recipe.name, "Anonymous Recipe");
    let step = RawCmdStep::from(StepConfig {
        name: "n".to_string(),
        comand: "c".to_string(),
        position: StepPosition::Before,
        ref_step: "core:init".to_string(),
    });
    assert_eq!(step, RawCmdStep { name: "n".to_string(), raw_cmd: "c".to_string() });
}
