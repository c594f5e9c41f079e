use trappo::config::HostConfig;
use trappo::recipe::deployer::{deploy, execute_steps, rollback, DeployAction, DeployNext, DeployNotice, RecipeExecutor, StepsNext};
use trappo::recipe::Recipe;
use trappo::steps::core_steps::RawCmdStep;
use trappo::steps::error::StepError;
use trappo::steps::{Context, Step};

fn raw(name: &str) -> Step {
    Step::RawCmd(RawCmdStep { name: name.to_string(), raw_cmd: name.to_string() })
}

fn recipe() -> Recipe {
    Recipe { name: "Main Recipe".to_string(), steps: vec![raw("a"), raw("b")], rollback_steps: vec![raw("r")] }
}

fn context() -> Context {
    Context {
        config: HostConfig {
            host: "my-server".to_string(),
            deploy_path: "/srv".to_string(),
            keep_releases: 3,
            repo_url: "repo".to_string(),
            link_files: vec![],
            link_dirs: vec![],
        },
        releases_path: "/srv/releases".to_string(),
        release_path: "/srv/releases/1".to_string(),
        prev_release_path: Some("/srv/releases/0".to_string()),
        shared_path: "/srv/shared".to_string(),
    }
}

fn critical(m: &str) -> Result<(), StepError> {
    Err(StepError::Critical(m.to_string()))
}

fn non_critical(m: &str) -> Result<(), StepError> {
    Err(StepError::NonCritical(m.to_string()))
}

fn s(x: &str) -> String {
    x.to_string()
}

#[test]
fn execute_steps_runs_in_order_and_stops_at_critical_failures() {
    let steps = vec![raw("a"), raw("b")];
    let r = execute_steps(&steps, &vec![]);
    assert_eq!(r.next, StepsNext::RunStep(0));
    assert_eq!(r.notices, vec![DeployNotice::ExecutingStep(s("a"))]);
    let r = execute_steps(&steps, &vec![non_critical("slow")]);
    assert_eq!(r.next, StepsNext::RunStep(1));
    assert_eq!(r.notices, vec![DeployNotice::NonCriticalContinuing, DeployNotice::ExecutingStep(s("b"))]);
    let r = execute_steps(&steps, &vec![Ok(()), Ok(())]);
    assert_eq!(r.next, StepsNext::Finished(Ok(())));
    assert_eq!(r.notices, vec![DeployNotice::StepSucceeded(s("b"))]);
    let r = execute_steps(&steps, &vec![critical("boom")]);
    assert_eq!(r.next, StepsNext::Finished(Err(s("boom"))));
    assert!(r.notices.is_empty());
}

#[test]
fn successful_deployment() {
    let (rc, ctx) = (recipe(), context());
    assert_eq!(
        deploy(&rc, &ctx, &vec![]),
        DeployAction {
            notices: vec![
                DeployNotice::DeployStart { host: s("my-server"), recipe: s("Main Recipe") },
                DeployNotice::ExecutingStep(s("a")),
            ],
            next: DeployNext::RunDeployStep(0),
        }
    );
    assert_eq!(deploy(&rc, &ctx, &vec![Ok(())]).next, DeployNext::RunDeployStep(1));
    let end = deploy(&rc, &ctx, &vec![Ok(()), non_critical("x")]);
    assert_eq!(end.next, DeployNext::Finished(Ok(())));
    assert_eq!(end.notices, vec![DeployNotice::NonCriticalContinuing]);
}

#[test]
fn failed_deployment_rolls_back() {
    let (rc, ctx) = (recipe(), context());
    assert_eq!(
        deploy(&rc, &ctx, &vec![Ok(()), critical("clone failed")]),
        DeployAction {
            notices: vec![
                DeployNotice::CriticalError(s("clone failed")),
                DeployNotice::RollbackStart { host: s("my-server"), recipe: s("Main Recipe") },
                DeployNotice::ExecutingStep(s("r")),
            ],
            next: DeployNext::RunRollbackStep(0),
        }
    );
    let end = deploy(&rc, &ctx, &vec![Ok(()), critical("clone failed"), Ok(())]);
    assert_eq!(end.next, DeployNext::Finished(Ok(())));
    assert_eq!(end.notices, vec![DeployNotice::StepSucceeded(s("r"))]);
    let end = deploy(&rc, &ctx, &vec![critical("a failed"), critical("r failed")]);
    assert_eq!(end.next, DeployNext::Finished(Err(())));
    assert_eq!(end.notices, vec![DeployNotice::RollbackFailed(s("r failed"))]);
}

#[test]
fn rollback_on_its_own() {
    let (rc, ctx) = (recipe(), context());
    let first = rollback(&rc, &ctx, &vec![]);
    assert_eq!(
        first.notices,
        vec![
            DeployNotice::RollbackStart { host: s("my-server"), recipe: s("Main Recipe") },
            DeployNotice::ExecutingStep(s("r")),
        ]
    );
    assert_eq!(first.next, DeployNext::RunRollbackStep(0));
    assert_eq!(rollback(&rc, &ctx, &vec![Ok(())]).next, DeployNext::Finished(Ok(())));
}

#[test]
fn executor_runs_every_step_whatever_happens() {
    let (rc, ctx) = (recipe(), context());
    let first = RecipeExecutor::execute(&rc, &ctx, &vec![]);
    assert_eq!(
        first.notices,
        vec![
            DeployNotice::DeployStart { host: s("my-server"), recipe: s("Main Recipe") },
            DeployNotice::ExecutingStep(s("a")),
        ]
    );
    let second = RecipeExecutor::execute(&rc, &ctx, &vec![critical("a failed")]);
    assert_eq!(second.next, StepsNext::RunStep(1));
    assert_eq!(second.notices, vec![DeployNotice::StepFailed(s("a failed")), DeployNotice::ExecutingStep(s("b"))]);
    let end = RecipeExecutor::execute(&rc, &ctx, &vec![critical("a failed"), Ok(())]);
    assert_eq!(end.next, StepsNext::Finished(Ok(())));
    assert_eq!(end.notices, vec![DeployNotice::StepSucceeded(s("b"))]);
}
