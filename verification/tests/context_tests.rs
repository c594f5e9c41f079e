use trappo::cmd::{CommandOutput, CommandResult, RemoteCommand};
use trappo::config::HostConfig;
use trappo::steps::{Context, ContextNext};
use trappo::Operation;

fn config() -> HostConfig {
    HostConfig {
        host: "my-server".to_string(),
        deploy_path: "/var/www/app".to_string(),
        keep_releases: 3,
        repo_url: "git@example.com:app.git".to_string(),
        link_files: vec![".env".to_string()],
        link_dirs: vec!["media".to_string()],
    }
}

fn ok(stdout: &str) -> CommandResult {
    Ok(CommandOutput { success: true, code: Some(0), stdout: stdout.as_bytes().to_vec() })
}

fn run(command: &str) -> ContextNext {
    ContextNext::Run(RemoteCommand { command: command.to_string(), inherit_output: false })
}

#[test]
fn deploy_context_asks_for_time_then_releases() {
    let c = config();
    assert_eq!(Context::from_host_config(&c, Operation::Deploy, &vec![]), run("date +'%Y%m%d%H%M%S'"));
    assert_eq!(
        Context::from_host_config(&c, Operation::Deploy, &vec![ok("20180924143501\n")]),
        run("find /var/www/app/releases -maxdepth 1 -mindepth 1 -printf '%f\n' | sort -r")
    );
    let done = Context::from_host_config(&c, Operation::Deploy, &vec![ok("20180924143501\n"), ok("20180922191500\n20180901000000\n")]);
    assert_eq!(
        done,
        ContextNext::Done(Ok(Context {
            config: config(),
            releases_path: "/var/www/app/releases".to_string(),
            release_path: "/var/www/app/releases/20180924143501\n".to_string(),
            prev_release_path: Some("/var/www/app/releases/20180922191500".to_string()),
            shared_path: "/var/www/app/shared".to_string(),
        }))
    );
}

#[test]
fn deploy_context_failures() {
    let c = config();
    let failed_date: CommandResult = Ok(CommandOutput { success: false, code: Some(1), stdout: vec![] });
    assert_eq!(
        Context::from_host_config(&c, Operation::Deploy, &vec![failed_date]),
        ContextNext::Done(Err("Failed to compute current timestamp at the server".to_string()))
    );
    assert_eq!(
        Context::from_host_config(&c, Operation::Deploy, &vec![Err("no route".to_string())]),
        ContextNext::Done(Err("no route".to_string()))
    );
    assert_eq!(
        Context::from_host_config(&c, Operation::Deploy, &vec![ok("1\n"), Err("broken pipe".to_string())]),
        ContextNext::Done(Err("broken pipe".to_string()))
    );
}

#[test]
fn first_deployment_has_no_previous_release() {
    let c = config();
    match Context::from_host_config(&c, Operation::Deploy, &vec![ok("2\n"), ok("")]) {
        ContextNext::Done(Ok(ctx)) => {
            assert_eq!(ctx.release_path, "/var/www/app/releases/2\n");
            assert_eq!(ctx.prev_release_path, None);
        },
        other => panic!("unexpected {:?}", other),
    }
}

#[test]
fn rollback_without_releases_is_refused() {
    let c = config();
    assert_eq!(
        Context::from_host_config(&c, Operation::Rollback, &vec![ok("")]),
        ContextNext::Done(Err("There are no releases on the server".to_string()))
    );
    assert_eq!(
        Context::from_host_config(&c, Operation::Rollback, &vec![ok("\n")]),
        ContextNext::Done(Err("There are no releases on the server".to_string()))
    );
}

#[test]
fn rollback_context_goes_back_one_release() {
    let c = config();
    assert_eq!(
        Context::from_host_config(&c, Operation::Rollback, &vec![]),
        run("find /var/www/app/releases -maxdepth 1 -mindepth 1 -printf '%f\n' | sort -r")
    );
    assert_eq!(
        Context::from_host_config(&c, Operation::Rollback, &vec![ok("3\n2\n1\n")]),
        ContextNext::Done(Ok(Context {
            config: config(),
            releases_path: "/var/www/app/releases".to_string(),
            release_path: "/var/www/app/releases/3".to_string(),
            prev_release_path: Some("/var/www/app/releases/2".to_string()),
            shared_path: "/var/www/app/shared".to_string(),
        }))
    );
    match Context::from_host_config(&c, Operation::Rollback, &vec![ok("only\n")]) {
        ContextNext::Done(Ok(ctx)) => {
            assert_eq!(ctx.release_path, "/var/www/app/releases/only");
            assert_eq!(ctx.prev_release_path, None);
        },
        other => panic!("unexpected {:?}", other),
    }
}
