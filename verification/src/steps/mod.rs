//! Deployment steps and the context they run in.
//!
//! A step is a protocol: given the results of the commands it asked for so
//! far, `execute` answers with the next command to run on the server or with
//! the step's result.

use vstd::prelude::*;
use crate::cmd::{CommandOutput, CommandResult, RemoteCommand, RemoteCommandView, SortOrder, captured, inherited, list_dir_command, list_dir_command_spec, listed_names, exec_remote_fetch_sorted_filenames_in_dir};
use crate::config::{HostConfig, HostConfigView};
use crate::text::{concat2, concat3, from_utf8_lossy, trim_spec, utf8_lossy};
use crate::Operation;
use self::error::{StepError, StepErrorView, failed_command_message};
use self::composer::ComposerInstall;
use self::core_steps::{CleanUpReleases, InitStep, LinkDirs, LinkFiles, RawCmdStep, SymlinkCurrent};
use self::git::GitClone;
use self::rollback::{CanRollBack, RemoveCurrentRelease, SymlinkPreviousRelease};

pub mod composer;
pub mod core_steps;
pub mod error;
pub mod git;
pub mod rollback;

verus! {

/// Where a deployment or rollback happens on the server.
#[derive(Debug, PartialEq, Eq)]
pub struct Context {
    pub config: HostConfig,
    /// `<deploy-path>/releases`
    pub releases_path: String,
    /// The release being deployed (or, for a rollback, the newest release).
    pub release_path: String,
    /// The release to fall back to, if any.
    pub prev_release_path: Option<String>,
    /// `<deploy-path>/shared`
    pub shared_path: String,
}

/// `Context` with its texts as character sequences.
pub struct ContextView {
    pub config: HostConfigView,
    pub releases_path: Seq<char>,
    pub release_path: Seq<char>,
    pub prev_release_path: Option<Seq<char>>,
    pub shared_path: Seq<char>,
}

impl View for Context {
    type V = ContextView;

    open spec fn view(&self) -> ContextView {
        ContextView {
            config: self.config@,
            releases_path: self.releases_path@,
            release_path: self.release_path@,
            prev_release_path: match self.prev_release_path {
                Some(p) => Some(p@),
                None => None,
            },
            shared_path: self.shared_path@,
        }
    }
}

/// What building a context asks for next.
#[derive(Debug, PartialEq, Eq)]
pub enum ContextNext {
    /// Run this command (its output captured) and report its result.
    Run(RemoteCommand),
    /// The context, or the text of the error that prevents it.
    Done(Result<Context, String>),
}

/// `ContextNext` with its texts as character sequences.
pub enum ContextNextView {
    Run(RemoteCommandView),
    Done(Result<ContextView, Seq<char>>),
}

impl View for ContextNext {
    type V = ContextNextView;

    open spec fn view(&self) -> ContextNextView {
        match self {
            ContextNext::Run(c) => ContextNextView::Run(c@),
            ContextNext::Done(Ok(ctx)) => ContextNextView::Done(Ok(ctx@)),
            ContextNext::Done(Err(e)) => ContextNextView::Done(Err(e@)),
        }
    }
}

/// The command that prints the server's current time as a release name.
pub open spec fn timestamp_command() -> Seq<char> {
    "date +'%Y%m%d%H%M%S'"@
}

/// `<deploy-path>/releases`
pub open spec fn releases_path_of(config: HostConfigView) -> Seq<char> {
    config.deploy_path + "/releases"@
}

/// `<deploy-path>/shared`
pub open spec fn shared_path_of(config: HostConfigView) -> Seq<char> {
    config.deploy_path + "/shared"@
}

/// The protocol that builds the context of a deployment: ask the server for
/// the time, then for the existing releases (newest first). The new release
/// is named after the time exactly as the server printed it; the newest
/// existing release becomes the one to fall back to.
pub open spec fn deploy_context_spec(config: HostConfigView, h: Seq<CommandResult>) -> ContextNextView {
    let releases = releases_path_of(config);
    if h.len() == 0 {
        ContextNextView::Run(captured(timestamp_command()))
    } else {
        match h[0] {
            Err(e) => ContextNextView::Done(Err(e@)),
            Ok(date) => if !date.success {
                ContextNextView::Done(Err("Failed to compute current timestamp at the server"@))
            } else if h.len() == 1 {
                ContextNextView::Run(captured(list_dir_command_spec(releases, SortOrder::Des)))
            } else {
                match h[1] {
                    Err(e) => ContextNextView::Done(Err(e@)),
                    Ok(listing) => {
                        let names = listed_names(listing.stdout@);
                        ContextNextView::Done(Ok(ContextView {
                            config,
                            releases_path: releases,
                            release_path: releases + "/"@ + utf8_lossy(date.stdout@),
                            prev_release_path: if names.len() > 0 {
                                Some(releases + "/"@ + names[0])
                            } else {
                                None
                            },
                            shared_path: shared_path_of(config),
                        }))
                    },
                }
            },
        }
    }
}

/// The protocol that builds the context of a rollback: ask the server for the
/// existing releases (newest first); the newest is the one rolled back from,
/// the next one the one rolled back to.
pub open spec fn rollback_context_spec(config: HostConfigView, h: Seq<CommandResult>) -> ContextNextView {
    let releases = releases_path_of(config);
    if h.len() == 0 {
        ContextNextView::Run(captured(list_dir_command_spec(releases, SortOrder::Des)))
    } else {
        match h[0] {
            Err(e) => ContextNextView::Done(Err(e@)),
            Ok(listing) => {
                let names = listed_names(listing.stdout@);
                if names.len() == 0 {
                    ContextNextView::Done(Err("There are no releases on the server"@))
                } else {
                    ContextNextView::Done(Ok(ContextView {
                        config,
                        releases_path: releases,
                        release_path: releases + "/"@ + names[0],
                        prev_release_path: if names.len() > 1 {
                            Some(releases + "/"@ + names[1])
                        } else {
                            None
                        },
                        shared_path: shared_path_of(config),
                    }))
                }
            },
        }
    }
}

/// The protocol that builds the context of a deployment or of a rollback.
pub open spec fn context_protocol(config: HostConfigView, opt: Operation, h: Seq<CommandResult>) -> ContextNextView {
    match opt {
        Operation::Deploy => deploy_context_spec(config, h),
        Operation::Rollback => rollback_context_spec(config, h),
    }
}

impl Context {
    /// The next move in building the context of `opt` for `config`, given the
    /// results of the commands asked for so far.
    pub fn from_host_config(config: &HostConfig, opt: Operation, history: &Vec<CommandResult>) -> (r: ContextNext)
        ensures
            r@ == context_protocol(config@, opt, history@),
    {
        match opt {
            Operation::Deploy => Context::deploy_context(config, history),
            Operation::Rollback => Context::rollback_context(config, history),
        }
    }

    fn rollback_context(config: &HostConfig, history: &Vec<CommandResult>) -> (r: ContextNext)
        ensures
            r@ == rollback_context_spec(config@, history@),
    {
        let releases_path: String = concat2(config.deploy_path.as_str(), "/releases");
        if history.len() == 0 {
            let c: String = list_dir_command(releases_path.as_str(), SortOrder::Des);
            return ContextNext::Run(RemoteCommand { command: c, inherit_output: false });
        }
        let names: Vec<String> = match exec_remote_fetch_sorted_filenames_in_dir(&history[0]) {
            Ok(n) => n,
            Err(e) => return ContextNext::Done(Err(e)),
        };
        if names.len() == 0 {
            return ContextNext::Done(Err(String::from_str("There are no releases on the server")));
        }
        let ghost nv = names@.map_values(|s: String| s@);
        assert(nv[0] == names@[0]@);
        let release_path: String = concat3(releases_path.as_str(), "/", names[0].as_str());
        let prev_release_path: Option<String> = if names.len() > 1 {
            assert(nv[1] == names@[1]@);
            Some(concat3(releases_path.as_str(), "/", names[1].as_str()))
        } else {
            None
        };
        let shared_path: String = concat2(config.deploy_path.as_str(), "/shared");
        ContextNext::Done(Ok(Context {
            config: config.duplicate(),
            releases_path,
            release_path,
            prev_release_path,
            shared_path,
        }))
    }

    fn deploy_context(config: &HostConfig, history: &Vec<CommandResult>) -> (r: ContextNext)
        ensures
            r@ == deploy_context_spec(config@, history@),
    {
        if history.len() == 0 {
            return ContextNext::Run(RemoteCommand {
                command: String::from_str("date +'%Y%m%d%H%M%S'"),
                inherit_output: false,
            });
        }
        let date: &crate::cmd::CommandOutput = match &history[0] {
            Err(e) => return ContextNext::Done(Err(e.clone())),
            Ok(o) => o,
        };
        if !date.success {
            return ContextNext::Done(Err(String::from_str("Failed to compute current timestamp at the server")));
        }
        let releases_path: String = concat2(config.deploy_path.as_str(), "/releases");
        if history.len() == 1 {
            let c: String = list_dir_command(releases_path.as_str(), SortOrder::Des);
            return ContextNext::Run(RemoteCommand { command: c, inherit_output: false });
        }
        let names: Vec<String> = match exec_remote_fetch_sorted_filenames_in_dir(&history[1]) {
            Ok(n) => n,
            Err(e) => return ContextNext::Done(Err(e)),
        };
        let ghost nv = names@.map_values(|s: String| s@);
        let prev_release_path: Option<String> = if names.len() > 0 {
            assert(nv[0] == names@[0]@);
            Some(concat3(releases_path.as_str(), "/", names[0].as_str()))
        } else {
            None
        };
        let release_timestamp: String = from_utf8_lossy(date.stdout.as_slice());
        let release_path: String = concat3(releases_path.as_str(), "/", release_timestamp.as_str());
        let shared_path: String = concat2(config.deploy_path.as_str(), "/shared");
        ContextNext::Done(Ok(Context {
            config: config.duplicate(),
            releases_path,
            release_path,
            prev_release_path,
            shared_path,
        }))
    }
}

/// Something a step reports on the way.
#[derive(Debug, PartialEq, Eq)]
pub enum Notice {
    /// Removing this old release failed.
    CleanupFailed(String),
    /// This old release was handled (removed, unless reported as failed).
    Deleted(String),
}

/// `Notice` with its text as a character sequence.
pub enum NoticeView {
    CleanupFailed(Seq<char>),
    Deleted(Seq<char>),
}

impl View for Notice {
    type V = NoticeView;

    open spec fn view(&self) -> NoticeView {
        match self {
            Notice::CleanupFailed(d) => NoticeView::CleanupFailed(d@),
            Notice::Deleted(d) => NoticeView::Deleted(d@),
        }
    }
}

/// What a step does next.
#[derive(Debug, PartialEq, Eq)]
pub enum StepNext {
    /// Run this command and report its result.
    Run(RemoteCommand),
    /// The step is over, with this result.
    Done(Result<(), StepError>),
}

/// `StepNext` with its texts as character sequences.
pub enum StepNextView {
    Run(RemoteCommandView),
    Done(Result<(), StepErrorView>),
}

/// A step's answer: notices to show first, then what comes next.
#[derive(Debug, PartialEq, Eq)]
pub struct StepAction {
    pub notices: Vec<Notice>,
    pub next: StepNext,
}

/// `StepAction` with its texts as character sequences.
pub struct StepActionView {
    pub notices: Seq<NoticeView>,
    pub next: StepNextView,
}

impl View for StepAction {
    type V = StepActionView;

    open spec fn view(&self) -> StepActionView {
        StepActionView {
            notices: self.notices@.map_values(|n: Notice| n@),
            next: match self.next {
                StepNext::Run(c) => StepNextView::Run(c@),
                StepNext::Done(Ok(())) => StepNextView::Done(Ok(())),
                StepNext::Done(Err(e)) => StepNextView::Done(Err(e@)),
            },
        }
    }
}

/// Run a command, with nothing to report.
pub open spec fn run_spec(c: RemoteCommandView) -> StepActionView {
    StepActionView { notices: Seq::empty(), next: StepNextView::Run(c) }
}

/// Finish with a result, with nothing to report.
pub open spec fn done_spec(r: Result<(), StepErrorView>) -> StepActionView {
    StepActionView { notices: Seq::empty(), next: StepNextView::Done(r) }
}

/// The error a command's result amounts to: the text of the error that kept
/// it from running, or the failed-command message (naming `cmd`) when it
/// exited unsuccessfully; none when it succeeded.
pub open spec fn status_error(o: CommandResult, cmd: Seq<char>) -> Option<StepErrorView> {
    match o {
        Err(e) => Some(StepErrorView::Critical(e@)),
        Ok(out) => if out.success {
            None
        } else {
            Some(StepErrorView::Critical(failed_command_message(cmd, out.code)))
        },
    }
}

/// The step result a command's result amounts to.
pub open spec fn status_result(o: CommandResult, cmd: Seq<char>) -> Result<(), StepErrorView> {
    match status_error(o, cmd) {
        Some(e) => Err(e),
        None => Ok(()),
    }
}

/// A step that runs one command and fails when it does (the failure message
/// names `failure_cmd`).
pub open spec fn single_command_spec(c: RemoteCommandView, failure_cmd: Seq<char>, h: Seq<CommandResult>) -> StepActionView {
    if h.len() == 0 {
        run_spec(c)
    } else {
        done_spec(status_result(h[0], failure_cmd))
    }
}

/// The answer "run `command`".
pub fn run_action(command: String, inherit_output: bool) -> (r: StepAction)
    ensures
        r@ == run_spec(RemoteCommandView { command: command@, inherit_output }),
{
    let notices: Vec<Notice> = Vec::new();
    assert(notices@.map_values(|n: Notice| n@) =~= Seq::<NoticeView>::empty());
    StepAction { notices, next: StepNext::Run(RemoteCommand { command, inherit_output }) }
}

/// The answer "finished with `result`".
pub fn done_action(result: Result<(), StepError>) -> (r: StepAction)
    ensures
        r@ == done_spec(match result {
            Ok(()) => Ok(()),
            Err(e) => Err(e@),
        }),
{
    let notices: Vec<Notice> = Vec::new();
    assert(notices@.map_values(|n: Notice| n@) =~= Seq::<NoticeView>::empty());
    StepAction { notices, next: StepNext::Done(result) }
}

/// The error a command's result amounts to, as `status_error` says.
pub fn check_status(o: &CommandResult, cmd: &str) -> (r: Option<StepError>)
    ensures
        match r {
            Some(e) => status_error(*o, cmd@) == Some(e@),
            None => status_error(*o, cmd@) is None,
        },
{
    match o {
        Err(e) => Some(StepError::Critical(e.clone())),
        Ok(out) => if out.success {
            None
        } else {
            Some(StepError::fromFailedCommand(cmd, out.code))
        },
    }
}

/// The step result a command's result amounts to, as `status_result` says.
pub fn status_done(o: &CommandResult, cmd: &str) -> (r: StepAction)
    ensures
        r@ == done_spec(status_result(*o, cmd@)),
{
    match check_status(o, cmd) {
        Some(e) => done_action(Err(e)),
        None => done_action(Ok(())),
    }
}

/// One command step, as `single_command_spec` says.
pub fn single_command(command: String, inherit_output: bool, failure_cmd: &str, history: &Vec<CommandResult>) -> (r: StepAction)
    ensures
        r@ == single_command_spec(RemoteCommandView { command: command@, inherit_output }, failure_cmd@, history@),
{
    if history.len() == 0 {
        run_action(command, inherit_output)
    } else {
        status_done(&history[0], failure_cmd)
    }
}

/// A step of a recipe.
#[derive(Debug, PartialEq, Eq)]
pub enum Step {
    Init(InitStep),
    GitClone(GitClone),
    ComposerInstall(ComposerInstall),
    LinkFiles(LinkFiles),
    LinkDirs(LinkDirs),
    SymlinkCurrent(SymlinkCurrent),
    CleanUpReleases(CleanUpReleases),
    RawCmd(RawCmdStep),
    CanRollBack(CanRollBack),
    RemoveCurrentRelease(RemoveCurrentRelease),
    SymlinkPreviousRelease(SymlinkPreviousRelease),
}

impl Step {
    /// The step's name, by which custom steps refer to it.
    pub open spec fn name(&self) -> Seq<char> {
        match self {
            Step::Init(_) => "core:init"@,
            Step::GitClone(_) => "git:clone"@,
            Step::ComposerInstall(_) => "composer:install"@,
            Step::LinkFiles(_) => "core:link:files"@,
            Step::LinkDirs(_) => "core:link:directories"@,
            Step::SymlinkCurrent(_) => "core:link:current"@,
            Step::CleanUpReleases(_) => "core:cleanup:releases"@,
            Step::RawCmd(s) => s.name@,
            Step::CanRollBack(_) => "rollback:check"@,
            Step::RemoveCurrentRelease(_) => "rollback:rm:latest"@,
            Step::SymlinkPreviousRelease(_) => "rollback:symlink:previous"@,
        }
    }

    /// The step's protocol.
    pub open spec fn protocol(&self, ctx: ContextView, h: Seq<CommandResult>) -> StepActionView {
        match self {
            Step::Init(_) => InitStep::protocol(ctx, h),
            Step::GitClone(_) => GitClone::protocol(ctx, h),
            Step::ComposerInstall(_) => ComposerInstall::protocol(ctx, h),
            Step::LinkFiles(_) => LinkFiles::protocol(ctx, h),
            Step::LinkDirs(_) => LinkDirs::protocol(ctx, h),
            Step::SymlinkCurrent(_) => SymlinkCurrent::protocol(ctx, h),
            Step::CleanUpReleases(_) => CleanUpReleases::protocol(ctx, h),
            Step::RawCmd(s) => s.protocol(ctx, h),
            Step::CanRollBack(_) => CanRollBack::protocol(ctx, h),
            Step::RemoveCurrentRelease(_) => RemoveCurrentRelease::protocol(ctx, h),
            Step::SymlinkPreviousRelease(_) => SymlinkPreviousRelease::protocol(ctx, h),
        }
    }

    /// Whether the step can only run when there is a previous release.
    pub open spec fn needs_previous_release(&self) -> bool {
        self is SymlinkPreviousRelease
    }

    pub fn get_name(&self) -> (r: &str)
        ensures
            r@ == self.name(),
    {
        match self {
            Step::Init(s) => s.get_name(),
            Step::GitClone(s) => s.get_name(),
            Step::ComposerInstall(s) => s.get_name(),
            Step::LinkFiles(s) => s.get_name(),
            Step::LinkDirs(s) => s.get_name(),
            Step::SymlinkCurrent(s) => s.get_name(),
            Step::CleanUpReleases(s) => s.get_name(),
            Step::RawCmd(s) => s.get_name(),
            Step::CanRollBack(s) => s.get_name(),
            Step::RemoveCurrentRelease(s) => s.get_name(),
            Step::SymlinkPreviousRelease(s) => s.get_name(),
        }
    }

    /// The step's next move, given the results of the commands it asked for.
    pub fn execute(&self, context: &Context, history: &Vec<CommandResult>) -> (r: StepAction)
        requires
            self.needs_previous_release() ==> context.prev_release_path is Some,
        ensures
            r@ == self.protocol(context@, history@),
    {
        match self {
            Step::Init(s) => s.execute(context, history),
            Step::GitClone(s) => s.execute(context, history),
            Step::ComposerInstall(s) => s.execute(context, history),
            Step::LinkFiles(s) => s.execute(context, history),
            Step::LinkDirs(s) => s.execute(context, history),
            Step::SymlinkCurrent(s) => s.execute(context, history),
            Step::CleanUpReleases(s) => s.execute(context, history),
            Step::RawCmd(s) => s.execute(context, history),
            Step::CanRollBack(s) => s.execute(context, history),
            Step::RemoveCurrentRelease(s) => s.execute(context, history),
            Step::SymlinkPreviousRelease(s) => s.execute(context, history),
        }
    }
}

/// Law: a context lays the server out as `<deploy-path>/releases/<release>`
/// and `<deploy-path>/shared`, and keeps the stage's settings.
pub proof fn context_layout(config: HostConfigView, opt: Operation, h: Seq<CommandResult>, ctx: ContextView)
    requires
        context_protocol(config, opt, h) == ContextNextView::Done(Ok(ctx)),
    ensures
        ctx.config == config,
        ctx.releases_path == config.deploy_path + "/releases"@,
        ctx.shared_path == config.deploy_path + "/shared"@,
        ctx.release_path.len() >= ctx.releases_path.len() + 1,
        ctx.release_path.subrange(0, ctx.releases_path.len() + 1int) == ctx.releases_path + "/"@,
        ctx.prev_release_path matches Some(p) ==> p.len() >= ctx.releases_path.len() + 1
            && p.subrange(0, ctx.releases_path.len() + 1int) == ctx.releases_path + "/"@,
{
    reveal_strlit("/");
    let rp = ctx.releases_path + "/"@;
    assert(ctx.release_path.subrange(0, rp.len() as int) =~= rp);
    if let Some(p) = ctx.prev_release_path {
        assert(p.subrange(0, rp.len() as int) =~= rp);
    }
}

/// Law: a rollback goes back from the newest release to the one before it.
pub proof fn rollback_goes_back_one_release(config: HostConfigView, listing: CommandOutput, ctx: ContextView)
    requires
        context_protocol(config, Operation::Rollback, seq![Ok::<CommandOutput, String>(listing)]) == ContextNextView::Done(Ok(ctx)),
    ensures
        ctx.release_path == config.deploy_path + "/releases"@ + "/"@ + listed_names(listing.stdout@)[0],
        listed_names(listing.stdout@).len() > 1 ==> ctx.prev_release_path
            == Some(config.deploy_path + "/releases"@ + "/"@ + listed_names(listing.stdout@)[1]),
        listed_names(listing.stdout@).len() <= 1 ==> ctx.prev_release_path is None,
{
    let h = seq![Ok::<CommandOutput, String>(listing)];
    assert(h[0] == Ok::<CommandOutput, String>(listing));
}

/// Law: on a server whose releases directory lists no release, a rollback is
/// refused with the no-releases error, and a deployment has no previous
/// release to fall back to.
pub proof fn no_releases_listed(config: HostConfigView, date: CommandOutput, listing: CommandOutput)
    requires
        listed_names(listing.stdout@).len() == 0,
    ensures
        context_protocol(config, Operation::Rollback, seq![Ok::<CommandOutput, String>(listing)])
            == ContextNextView::Done(Err("There are no releases on the server"@)),
        date.success ==> (context_protocol(
            config,
            Operation::Deploy,
            seq![Ok::<CommandOutput, String>(date), Ok::<CommandOutput, String>(listing)],
        ) matches ContextNextView::Done(Ok(ctx)) && ctx.prev_release_path is None),
{
    let h = seq![Ok::<CommandOutput, String>(listing)];
    assert(h[0] == Ok::<CommandOutput, String>(listing));
    let d = seq![Ok::<CommandOutput, String>(date), Ok::<CommandOutput, String>(listing)];
    assert(d[0] == Ok::<CommandOutput, String>(date));
    assert(d[1] == Ok::<CommandOutput, String>(listing));
}

/// Law: building a deployment context asks the server for its time, then
/// for its releases newest first. A failed time query fails the deployment.
/// The new release is `<deploy-path>/releases/<time as printed>`, and the
/// newest release already on the server, when there is one, is the release
/// to fall back to; a first deployment has none.
pub proof fn deployment_context_falls_back_to_the_newest_release(
    config: HostConfigView,
    date: CommandOutput,
    listing: CommandOutput,
)
    ensures
        context_protocol(config, Operation::Deploy, Seq::empty()) == ContextNextView::Run(captured("date +'%Y%m%d%H%M%S'"@)),
        !date.success ==> context_protocol(config, Operation::Deploy, seq![Ok::<CommandOutput, String>(date)])
            == ContextNextView::Done(Err("Failed to compute current timestamp at the server"@)),
        date.success ==> context_protocol(config, Operation::Deploy, seq![Ok::<CommandOutput, String>(date)]) == ContextNextView::Run(
            captured("find "@ + (config.deploy_path + "/releases"@) + " -maxdepth 1 -mindepth 1 -printf '%f\n' | "@ + "sort -r"@),
        ),
        date.success ==> (context_protocol(
            config,
            Operation::Deploy,
            seq![Ok::<CommandOutput, String>(date), Ok::<CommandOutput, String>(listing)],
        ) matches ContextNextView::Done(Ok(ctx)) && {
            &&& ctx.config == config
            &&& ctx.releases_path == config.deploy_path + "/releases"@
            &&& ctx.release_path == config.deploy_path + "/releases"@ + "/"@ + utf8_lossy(date.stdout@)
            &&& ctx.shared_path == config.deploy_path + "/shared"@
            &&& listed_names(listing.stdout@).len() >= 1 ==> ctx.prev_release_path
                == Some(config.deploy_path + "/releases"@ + "/"@ + listed_names(listing.stdout@)[0])
            &&& listed_names(listing.stdout@).len() == 0 ==> ctx.prev_release_path is None
        }),
{
    let h1 = seq![Ok::<CommandOutput, String>(date)];
    assert(h1[0] == Ok::<CommandOutput, String>(date));
    let h2 = seq![Ok::<CommandOutput, String>(date), Ok::<CommandOutput, String>(listing)];
    assert(h2[0] == Ok::<CommandOutput, String>(date));
    assert(h2[1] == Ok::<CommandOutput, String>(listing));
}

/// Law: building a rollback context asks the server for its releases newest
/// first; when there is at least one, the newest is the release rolled back
/// from and the next newest, if any, the release rolled back to.
pub proof fn rollback_context_uses_the_two_newest_releases(config: HostConfigView, listing: CommandOutput)
    ensures
        context_protocol(config, Operation::Rollback, Seq::empty()) == ContextNextView::Run(
            captured("find "@ + (config.deploy_path + "/releases"@) + " -maxdepth 1 -mindepth 1 -printf '%f\n' | "@ + "sort -r"@),
        ),
        listed_names(listing.stdout@).len() >= 1 ==> (context_protocol(
            config,
            Operation::Rollback,
            seq![Ok::<CommandOutput, String>(listing)],
        ) matches ContextNextView::Done(Ok(ctx)) && {
            &&& ctx.config == config
            &&& ctx.releases_path == config.deploy_path + "/releases"@
            &&& ctx.release_path == config.deploy_path + "/releases"@ + "/"@ + listed_names(listing.stdout@)[0]
            &&& ctx.shared_path == config.deploy_path + "/shared"@
            &&& listed_names(listing.stdout@).len() >= 2 ==> ctx.prev_release_path
                == Some(config.deploy_path + "/releases"@ + "/"@ + listed_names(listing.stdout@)[1])
            &&& listed_names(listing.stdout@).len() == 1 ==> ctx.prev_release_path is None
        }),
{
    let h = seq![Ok::<CommandOutput, String>(listing)];
    assert(h[0] == Ok::<CommandOutput, String>(listing));
}

/// Law: a command that could not be run while building a context ends it
/// with that command's error text.
pub proof fn context_commands_that_cannot_run_end_it(config: HostConfigView, date: CommandOutput, e: String)
    ensures
        context_protocol(config, Operation::Rollback, seq![Err::<CommandOutput, String>(e)]) == ContextNextView::Done(Err(e@)),
        context_protocol(config, Operation::Deploy, seq![Err::<CommandOutput, String>(e)]) == ContextNextView::Done(Err(e@)),
        date.success ==> context_protocol(
            config,
            Operation::Deploy,
            seq![Ok::<CommandOutput, String>(date), Err::<CommandOutput, String>(e)],
        ) == ContextNextView::Done(Err(e@)),
{
    let h = seq![Err::<CommandOutput, String>(e)];
    assert(h[0] == Err::<CommandOutput, String>(e));
    let d = seq![Ok::<CommandOutput, String>(date), Err::<CommandOutput, String>(e)];
    assert(d[0] == Ok::<CommandOutput, String>(date));
    assert(d[1] == Err::<CommandOutput, String>(e));
}

/// Law: what each kind of step does first, with no result yet: the command
/// it runs (output shown or captured), or, for the rollback check, its
/// verdict on whether there is a release to go back to.
pub proof fn each_step_starts_with_its_command(step: Step, ctx: ContextView)
    ensures
        step is Init ==> step.protocol(ctx, Seq::empty()).next
            == StepNextView::Run(captured("mkdir -p "@ + ctx.release_path)),
        step is GitClone ==> step.protocol(ctx, Seq::empty()).next == StepNextView::Run(
            inherited("git clone "@ + trim_spec(ctx.config.repo_url) + " "@ + trim_spec(ctx.release_path)),
        ),
        step is ComposerInstall ==> step.protocol(ctx, Seq::empty()).next == StepNextView::Run(
            inherited("cd "@ + trim_spec(ctx.release_path) + " && composer install"@),
        ),
        step matches Step::RawCmd(s) ==> step.protocol(ctx, Seq::empty()).next == StepNextView::Run(
            inherited("cd "@ + trim_spec(ctx.release_path) + " && "@ + s.raw_cmd@),
        ),
        step is SymlinkCurrent || step is SymlinkPreviousRelease ==> step.protocol(ctx, Seq::empty()).next
            == StepNextView::Run(captured("test -"@ + "L"@ + " "@ + (ctx.config.deploy_path + "/current"@))),
        step is CleanUpReleases ==> step.protocol(ctx, Seq::empty()).next == StepNextView::Run(
            captured("find "@ + ctx.releases_path + " -maxdepth 1 -mindepth 1 -printf '%f\n' | "@ + "sort"@),
        ),
        step is RemoveCurrentRelease ==> step.protocol(ctx, Seq::empty()).next
            == StepNextView::Run(captured("rm -rf "@ + ctx.release_path)),
        step is CanRollBack ==> step.protocol(ctx, Seq::empty()).next == StepNextView::Done(
            if ctx.prev_release_path is Some {
                Ok(())
            } else {
                Err(StepErrorView::Critical("Can't rollback because there is no release to rollback to."@))
            },
        ),
{
}

/// Law: the step that points `current` links it to the release being
/// deployed (its path trimmed), and the rollback's step to the previous
/// release; each follows the protocol of pointing `current` at that target.
pub proof fn symlink_steps_link_their_release(step: Step, ctx: ContextView, check: CommandOutput, h: Seq<CommandResult>)
    requires
        step is SymlinkCurrent || step is SymlinkPreviousRelease,
    ensures
        ({
            let target = if step is SymlinkCurrent {
                trim_spec(ctx.release_path)
            } else {
                trim_spec(ctx.prev_release_path->Some_0)
            };
            &&& step.protocol(ctx, h) == self::core_steps::symlink_protocol(ctx, target, h)
            &&& !check.success ==> step.protocol(ctx, seq![Ok::<CommandOutput, String>(check)]).next
                == StepNextView::Run(captured("ln -s "@ + target + " "@ + (ctx.config.deploy_path + "/current"@)))
        }),
{
    let one = seq![Ok::<CommandOutput, String>(check)];
    assert(one[0] == Ok::<CommandOutput, String>(check));
}

/// Law: a step that runs a single command (creating the release, cloning,
/// installing dependencies, a custom command, removing the release) is over
/// once that command has a result. A command that could not be run fails the
/// step critically with its error text. Cloning succeeds whenever the command
/// ran; the others succeed only when it exited successfully, and otherwise
/// fail critically naming the command (the configured command for a custom
/// step) and its exit code, or, for removing the release, naming the release.
pub proof fn single_command_steps_report_their_command(step: Step, ctx: ContextView, r: CommandResult)
    requires
        step is Init || step is GitClone || step is ComposerInstall || step is RawCmd || step is RemoveCurrentRelease,
    ensures
        step.protocol(ctx, seq![r]).next == StepNextView::Done(match r {
            Err(e) => Err(StepErrorView::Critical(e@)),
            Ok(o) => if o.success || step is GitClone {
                Ok(())
            } else {
                Err(StepErrorView::Critical(match step {
                    Step::Init(_) => failed_command_message("mkdir -p "@ + ctx.release_path, o.code),
                    Step::ComposerInstall(_) => failed_command_message(
                        "cd "@ + trim_spec(ctx.release_path) + " && composer install"@,
                        o.code,
                    ),
                    Step::RawCmd(s) => failed_command_message(s.raw_cmd@, o.code),
                    _ => "Failed to remove current release at "@ + ctx.release_path,
                }))
            },
        }),
{
    let h = seq![r];
    assert(h[0] == r);
}

/// How many command results a step needs at most before it is over (for
/// cleaning up, once the listing is known).
pub open spec fn command_bound(step: Step, ctx: ContextView, h: Seq<CommandResult>) -> nat {
    match step {
        Step::CanRollBack(_) => 0,
        Step::LinkFiles(_) => 2 * ctx.config.link_files.len(),
        Step::LinkDirs(_) => 2 * ctx.config.link_dirs.len(),
        Step::SymlinkCurrent(_) => 3,
        Step::SymlinkPreviousRelease(_) => 3,
        Step::CleanUpReleases(_) => if h.len() > 0 && h[0] is Ok {
            listed_names(h[0]->Ok_0.stdout@).len() + 1
        } else {
            1
        },
        _ => 1,
    }
}

/// Law: every step is over once it has had `command_bound` results, so
/// running a step always ends.
pub proof fn every_step_finishes(step: Step, ctx: ContextView, h: Seq<CommandResult>)
    requires
        h.len() >= command_bound(step, ctx, h),
    ensures
        step.protocol(ctx, h).next is Done,
{
    match step {
        Step::LinkFiles(_) => self::core_steps::linking_finishes(ctx, false, h),
        Step::LinkDirs(_) => self::core_steps::linking_finishes(ctx, true, h),
        Step::SymlinkCurrent(_) => self::core_steps::symlink_finishes(ctx, crate::text::trim_spec(ctx.release_path), h),
        Step::SymlinkPreviousRelease(_) => self::core_steps::symlink_finishes(
            ctx,
            crate::text::trim_spec(ctx.prev_release_path->Some_0),
            h,
        ),
        Step::CleanUpReleases(_) => {
            if h.len() > 0 {
                self::core_steps::cleanup_finishes(ctx, h);
            }
        },
        _ => {},
    }
}

} // verus!
