use trappo::cmd::{CommandOutput, CommandResult, RemoteCommand};
use trappo::config::HostConfig;
use trappo::steps::composer::ComposerInstall;
use trappo::steps::core_steps::{CleanUpReleases, InitStep, LinkDirs, LinkFiles, RawCmdStep, SymlinkCurrent};
use trappo::steps::error::StepError;
use trappo::steps::git::GitClone;
use trappo::steps::rollback::{CanRollBack, RemoveCurrentRelease, SymlinkPreviousRelease};
use trappo::steps::{Context, Notice, Step, StepAction, StepNext};

fn context(keep: i8, prev: Option<&str>) -> Context {
    Context {
        config: HostConfig {
            host: "my-server".to_string(),
            deploy_path: "/srv/app".to_string(),
            keep_releases: keep,
            repo_url: " git@example.com:app.git ".to_string(),
            link_files: vec![".env".to_string(), "app/etc/env.php".to_string()],
            link_dirs: vec!["media".to_string()],
        },
        releases_path: "/srv/app/releases".to_string(),
        release_path: "/srv/app/releases/20180924143501\n".to_string(),
        prev_release_path: prev.map(|p| p.to_string()),
        shared_path: "/srv/app/shared".to_string(),
    }
}

fn ok() -> CommandResult {
    Ok(CommandOutput { success: true, code: Some(0), stdout: vec![] })
}

fn failed(code: Option<i32>) -> CommandResult {
    Ok(CommandOutput { success: false, code, stdout: vec![] })
}

fn listing(text: &str) -> CommandResult {
    Ok(CommandOutput { success: true, code: Some(0), stdout: text.as_bytes().to_vec() })
}

fn run(command: &str, inherit_output: bool) -> StepAction {
    StepAction {
        notices: vec![],
        next: StepNext::Run(RemoteCommand { command: command.to_string(), inherit_output }),
    }
}

fn done(result: Result<(), StepError>) -> StepAction {
    StepAction { notices: vec![], next: StepNext::Done(result) }
}

fn critical(m: &str) -> Result<(), StepError> {
    Err(StepError::Critical(m.to_string()))
}

#[test]
fn failed_command_messages() {
    assert_eq!(
        StepError::fromFailedCommand("ls", Some(2)),
        StepError::Critical("Command 'ls' exited with non-sucessful status code '2'".to_string())
    );
    assert_eq!(
        StepError::fromFailedCommand("ls", Some(-1)),
        StepError::Critical("Command 'ls' exited with non-sucessful status code '-1'".to_string())
    );
    assert_eq!(
        StepError::fromFailedCommand("ls", None),
        StepError::Critical("Command 'ls' exited with non-sucessful status code".to_string())
    );
    assert_eq!(StepError::nonCriticalfromError("disk full"), StepError::NonCritical("disk full".to_string()));
}

#[test]
fn init_step_creates_the_release_directory() {
    let ctx = context(3, None);
    assert_eq!(InitStep.get_name(), "core:init");
    assert_eq!(InitStep.execute(&ctx, &vec![]), run("mkdir -p /srv/app/releases/20180924143501\n", false));
    assert_eq!(InitStep.execute(&ctx, &vec![ok()]), done(Ok(())));
    assert_eq!(
        InitStep.execute(&ctx, &vec![failed(Some(1))]),
        done(critical("Command 'mkdir -p /srv/app/releases/20180924143501\n' exited with non-sucessful status code '1'"))
    );
    assert_eq!(InitStep.execute(&ctx, &vec![Err("refused".to_string())]), done(critical("refused")));
}

#[test]
fn raw_command_runs_in_the_release() {
    let ctx = context(3, None);
    let step = RawCmdStep { name: "notify".to_string(), raw_cmd: "curl x".to_string() };
    assert_eq!(step.get_name(), "notify");
    assert_eq!(step.execute(&ctx, &vec![]), run("cd /srv/app/releases/20180924143501 && curl x", true));
    assert_eq!(
        step.execute(&ctx, &vec![failed(Some(7))]),
        done(critical("Command 'curl x' exited with non-sucessful status code '7'"))
    );
}

#[test]
fn composer_and_git_steps() {
    let ctx = context(3, None);
    assert_eq!(
        ComposerInstall.execute(&ctx, &vec![]),
        run("cd /srv/app/releases/20180924143501 && composer install", true)
    );
    assert_eq!(
        GitClone.execute(&ctx, &vec![]),
        run("git clone git@example.com:app.git /srv/app/releases/20180924143501", true)
    );
    assert_eq!(GitClone.execute(&ctx, &vec![failed(Some(128))]), done(Ok(())));
    assert_eq!(GitClone.execute(&ctx, &vec![Err("no ssh".to_string())]), done(critical("no ssh")));
}

#[test]
fn link_files_checks_then_links_each_file() {
    let ctx = context(3, None);
    assert_eq!(LinkFiles.execute(&ctx, &vec![]), run("test -f /srv/app/shared/.env", false));
    assert_eq!(
        LinkFiles.execute(&ctx, &vec![ok()]),
        run("ln -s /srv/app/shared/.env /srv/app/releases/20180924143501/.env", false)
    );
    assert_eq!(LinkFiles.execute(&ctx, &vec![ok(), ok()]), run("test -f /srv/app/shared/app/etc/env.php", false));
    assert_eq!(LinkFiles.execute(&ctx, &vec![ok(), ok(), ok(), ok()]), done(Ok(())));
    assert_eq!(
        LinkFiles.execute(&ctx, &vec![ok(), ok(), failed(Some(1))]),
        done(critical("Could not create symlink for file app/etc/env.php because it doesn't exist"))
    );
    assert_eq!(
        LinkFiles.execute(&ctx, &vec![ok(), failed(Some(1))]),
        done(critical(
            "Command 'ln -s /srv/app/shared/.env /srv/app/releases/20180924143501/.env' exited with non-sucessful status code '1'"
        ))
    );
}

#[test]
fn link_dirs_checks_directories() {
    let ctx = context(3, None);
    assert_eq!(LinkDirs.execute(&ctx, &vec![]), run("test -d /srv/app/shared/media", false));
    assert_eq!(
        LinkDirs.execute(&ctx, &vec![failed(Some(1))]),
        done(critical("Could not create symlink for dir media because it doesn't exist"))
    );
    assert_eq!(LinkDirs.execute(&ctx, &vec![ok(), ok()]), done(Ok(())));
}

#[test]
fn symlink_current_replaces_an_existing_link() {
    let ctx = context(3, None);
    assert_eq!(SymlinkCurrent.execute(&ctx, &vec![]), run("test -L /srv/app/current", false));
    assert_eq!(SymlinkCurrent.execute(&ctx, &vec![ok()]), run("rm /srv/app/current", false));
    assert_eq!(
        SymlinkCurrent.execute(&ctx, &vec![ok(), ok()]),
        run("ln -s /srv/app/releases/20180924143501 /srv/app/current", false)
    );
    assert_eq!(SymlinkCurrent.execute(&ctx, &vec![ok(), ok(), ok()]), done(Ok(())));
    assert_eq!(
        SymlinkCurrent.execute(&ctx, &vec![failed(Some(1))]),
        run("ln -s /srv/app/releases/20180924143501 /srv/app/current", false)
    );
    assert_eq!(
        SymlinkCurrent.execute(&ctx, &vec![ok(), failed(None)]),
        done(critical("Command 'rm /srv/app/current' exited with non-sucessful status code"))
    );
}

#[test]
fn cleanup_removes_the_oldest_releases() {
    let ctx = context(1, None);
    assert_eq!(
        CleanUpReleases.execute(&ctx, &vec![]),
        run("find /srv/app/releases -maxdepth 1 -mindepth 1 -printf '%f\n' | sort", false)
    );
    let list = listing("1\n2\n3\n");
    assert_eq!(CleanUpReleases.execute(&ctx, &vec![list.clone()]), run("rm -rf /srv/app/releases/1", false));
    assert_eq!(
        CleanUpReleases.execute(&ctx, &vec![list.clone(), failed(Some(1))]),
        StepAction {
            notices: vec![Notice::CleanupFailed("1".to_string()), Notice::Deleted("1".to_string())],
            next: StepNext::Run(RemoteCommand { command: "rm -rf /srv/app/releases/2".to_string(), inherit_output: false }),
        }
    );
    assert_eq!(
        CleanUpReleases.execute(&ctx, &vec![list.clone(), ok(), ok()]),
        StepAction { notices: vec![Notice::Deleted("2".to_string())], next: StepNext::Done(Ok(())) }
    );
    assert_eq!(
        CleanUpReleases.execute(&ctx, &vec![list.clone(), ok(), Err("lost".to_string())]),
        done(critical("lost"))
    );
}

#[test]
fn cleanup_keeps_enough_releases() {
    let ctx = context(3, None);
    assert_eq!(CleanUpReleases.execute(&ctx, &vec![listing("1\n2\n3\n")]), done(Ok(())));
    let ctx = context(-1, None);
    assert_eq!(CleanUpReleases.execute(&ctx, &vec![listing("1\n2\n3\n")]), done(Ok(())));
    let ctx = context(0, None);
    assert_eq!(CleanUpReleases.execute(&ctx, &vec![listing("")]), done(Ok(())));
    assert_eq!(CleanUpReleases.execute(&ctx, &vec![listing("1\n")]), run("rm -rf /srv/app/releases/1", false));
    assert_eq!(
        CleanUpReleases.execute(&ctx, &vec![Err("no listing".to_string())]),
        done(Err(StepError::NonCritical("no listing".to_string())))
    );
}

#[test]
fn rollback_steps() {
    let ctx = context(3, Some("/srv/app/releases/20180922191500"));
    assert_eq!(CanRollBack.execute(&ctx, &vec![]), done(Ok(())));
    assert_eq!(
        CanRollBack.execute(&context(3, None), &vec![]),
        done(critical("Can't rollback because there is no release to rollback to."))
    );
    assert_eq!(RemoveCurrentRelease.execute(&ctx, &vec![]), run("rm -rf /srv/app/releases/20180924143501\n", false));
    assert_eq!(
        RemoveCurrentRelease.execute(&ctx, &vec![failed(Some(1))]),
        done(critical("Failed to remove current release at /srv/app/releases/20180924143501\n"))
    );
    assert_eq!(SymlinkPreviousRelease.execute(&ctx, &vec![failed(Some(1))]),
        run("ln -s /srv/app/releases/20180922191500 /srv/app/current", false));
    assert_eq!(SymlinkPreviousRelease.execute(&ctx, &vec![failed(Some(1)), ok()]), done(Ok(())));
}

#[test]
fn step_names_and_dispatch() {
    let ctx = context(3, None);
    let steps = vec![
        Step::Init(InitStep),
        Step::GitClone(GitClone),
        Step::ComposerInstall(ComposerInstall),
        Step::LinkFiles(LinkFiles),
        Step::LinkDirs(LinkDirs),
        Step::SymlinkCurrent(SymlinkCurrent),
        Step::CleanUpReleases(CleanUpReleases),
        Step::CanRollBack(CanRollBack),
        Step::RemoveCurrentRelease(RemoveCurrentRelease),
        Step::SymlinkPreviousRelease(SymlinkPreviousRelease),
    ];
    let names: Vec<&str> = steps.iter().map(|s| s.get_name()).collect();
    assert_eq!(
        names,
        vec![
            "core:init",
            "git:clone",
            "composer:install",
            "core:link:files",
            "core:link:directories",
            "core:link:current",
            "core:cleanup:releases",
            "rollback:check",
            "rollback:rm:latest",
            "rollback:symlink:previous",
        ]
    );
    assert_eq!(Step::Init(InitStep).execute(&ctx, &vec![]), InitStep.execute(&ctx, &vec![]));
}
