//! The steps of every deployment: preparing the release directory, linking
//! shared files and directories, pointing `current` at the new release and
//! removing old releases; and the steps made from custom step definitions.

use vstd::prelude::*;
use crate::cmd::{CommandOutput, CommandResult, FSResourceType, exec_remote_file_exists, SortOrder, captured, inherited, file_exists_command, file_exists_command_spec, list_dir_command, list_dir_command_spec, listed_names, exec_remote_fetch_sorted_filenames_in_dir};
use crate::config_steps::StepConfig;
use crate::text::{concat2, concat3, concat4, trim, trim_spec};
use super::{Context, ContextView, Notice, NoticeView, StepAction, StepActionView, StepNext, StepNextView, done_action, done_spec, run_action, run_spec, single_command, single_command_spec, status_done, status_result, check_status, status_error};
use super::error::{StepError, StepErrorView, failed_command_message};

verus! {

/// A command from the steps file, run from the release directory with its
/// output shown. A failure is critical.
#[derive(Debug, PartialEq, Eq)]
pub struct RawCmdStep {
    pub name: String,
    pub raw_cmd: String,
}

impl RawCmdStep {
    /// `cd <release> && <command>`
    pub open spec fn command(&self, ctx: ContextView) -> Seq<char> {
        "cd "@ + trim_spec(ctx.release_path) + " && "@ + self.raw_cmd@
    }

    /// Runs the command; a failure names the configured command.
    pub open spec fn protocol(&self, ctx: ContextView, h: Seq<CommandResult>) -> StepActionView {
        single_command_spec(inherited(self.command(ctx)), self.raw_cmd@, h)
    }

    pub fn get_name(&self) -> (r: &str)
        ensures
            r@ == self.name@,
    {
        self.name.as_str()
    }

    pub fn execute(&self, context: &Context, history: &Vec<CommandResult>) -> (r: StepAction)
        ensures
            r@ == self.protocol(context@, history@),
    {
        let release: String = trim(context.release_path.as_str());
        let c: String = concat4("cd ", release.as_str(), " && ", self.raw_cmd.as_str());
        single_command(c, true, self.raw_cmd.as_str(), history)
    }
}

/// The step made from a step definition: its name and command.
impl From<StepConfig> for RawCmdStep {
    fn from(config_step: StepConfig) -> (r: RawCmdStep) {
        RawCmdStep { name: config_step.name, raw_cmd: config_step.comand }
    }
}

impl vstd::std_specs::convert::FromSpecImpl<StepConfig> for RawCmdStep {
    open spec fn obeys_from_spec() -> bool {
        true
    }

    open spec fn from_spec(v: StepConfig) -> RawCmdStep {
        RawCmdStep { name: v.name, raw_cmd: v.comand }
    }
}

/// Creates the release directory (and the directories above it).
#[derive(Debug, Clone, Copy, PartialEq, Eq, Structural)]
pub struct InitStep;

impl InitStep {
    /// `mkdir -p <release>`
    pub open spec fn command(ctx: ContextView) -> Seq<char> {
        "mkdir -p "@ + ctx.release_path
    }

    pub open spec fn protocol(ctx: ContextView, h: Seq<CommandResult>) -> StepActionView {
        single_command_spec(captured(Self::command(ctx)), Self::command(ctx), h)
    }

    pub fn get_name(&self) -> (r: &'static str)
        ensures
            r@ == "core:init"@,
    {
        "core:init"
    }

    pub fn execute(&self, context: &Context, history: &Vec<CommandResult>) -> (r: StepAction)
        ensures
            r@ == Self::protocol(context@, history@),
    {
        let c: String = concat2("mkdir -p ", context.release_path.as_str());
        let f: String = c.clone();
        single_command(c, false, f.as_str(), history)
    }
}

/// The message for a shared entry that does not exist.
pub open spec fn missing_shared_message(dirs: bool, name: Seq<char>) -> Seq<char> {
    if dirs {
        "Could not create symlink for dir "@ + name + " because it doesn't exist"@
    } else {
        "Could not create symlink for file "@ + name + " because it doesn't exist"@
    }
}

/// `<shared>/<name>`
pub open spec fn shared_entry(ctx: ContextView, name: Seq<char>) -> Seq<char> {
    ctx.shared_path + "/"@ + name
}

/// `<release>/<name>`
pub open spec fn release_entry(ctx: ContextView, name: Seq<char>) -> Seq<char> {
    trim_spec(ctx.release_path) + "/"@ + name
}

/// `ln -s <shared>/<name> <release>/<name>`
pub open spec fn link_command(ctx: ContextView, name: Seq<char>) -> Seq<char> {
    "ln -s "@ + shared_entry(ctx, name) + " "@ + release_entry(ctx, name)
}

/// Linking the entries from the `i`-th on: for each, check that the shared
/// entry exists, then link it into the release; stop at the first failure.
/// The results for entry `i` are `h[2i]` (check) and `h[2i + 1]` (link).
pub open spec fn link_from(ctx: ContextView, dirs: bool, names: Seq<Seq<char>>, h: Seq<CommandResult>, i: int) -> StepActionView
    decreases names.len() - i,
{
    if i < 0 || i >= names.len() {
        done_spec(Ok(()))
    } else {
        let name = names[i];
        if h.len() <= 2 * i {
            run_spec(captured(file_exists_command_spec(shared_entry(ctx, name), link_kind(dirs))))
        } else {
            match h[2 * i] {
                Err(e) => done_spec(Err(StepErrorView::Critical(e@))),
                Ok(check) => if !check.success {
                    done_spec(Err(StepErrorView::Critical(missing_shared_message(dirs, name))))
                } else if h.len() <= 2 * i + 1 {
                    run_spec(captured(link_command(ctx, name)))
                } else {
                    match status_error(h[2 * i + 1], link_command(ctx, name)) {
                        Some(e) => done_spec(Err(e)),
                        None => link_from(ctx, dirs, names, h, i + 1),
                    }
                },
            }
        }
    }
}

/// The configured directories (`dirs`) or files.
pub open spec fn link_names(ctx: ContextView, dirs: bool) -> Seq<Seq<char>> {
    if dirs {
        ctx.config.link_dirs
    } else {
        ctx.config.link_files
    }
}

/// The kind of entry linked.
pub open spec fn link_kind(dirs: bool) -> FSResourceType {
    if dirs {
        FSResourceType::Directory
    } else {
        FSResourceType::File
    }
}

/// The linking protocol for the files (`dirs` false) or the directories.
pub open spec fn link_protocol(ctx: ContextView, dirs: bool, h: Seq<CommandResult>) -> StepActionView {
    link_from(ctx, dirs, link_names(ctx, dirs), h, 0)
}

fn link_execute(context: &Context, dirs: bool, history: &Vec<CommandResult>) -> (r: StepAction)
    ensures
        r@ == link_protocol(context@, dirs, history@),
{
    let names: &Vec<String> = if dirs { &context.config.link_dirs } else { &context.config.link_files };
    let ghost nv: Seq<Seq<char>> = link_names(context@, dirs);
    let kind: FSResourceType = if dirs { FSResourceType::Directory } else { FSResourceType::File };
    let release: String = trim(context.release_path.as_str());
    let mut i: usize = 0;
    let mut j: usize = 0;
    while i < names.len()
        invariant
            nv == names@.map_values(|s: String| s@),
            nv == link_names(context@, dirs),
            kind == link_kind(dirs),
            release@ == trim_spec(context@.release_path),
            i <= names@.len(),
            j == 2 * i,
            j <= history@.len(),
            link_protocol(context@, dirs, history@) == link_from(context@, dirs, nv, history@, i as int),
        decreases names@.len() - i,
    {
        let name: &String = &names[i];
        assert(nv[i as int] == name@);
        let shared: String = concat3(context.shared_path.as_str(), "/", name.as_str());
        if history.len() <= j {
            return run_action(file_exists_command(shared.as_str(), kind), false);
        }
        match exec_remote_file_exists(&history[j]) {
            Err(e) => return done_action(Err(StepError::Critical(e))),
            Ok(false) => {
                let m: String = if dirs {
                    concat3("Could not create symlink for dir ", name.as_str(), " because it doesn't exist")
                } else {
                    concat3("Could not create symlink for file ", name.as_str(), " because it doesn't exist")
                };
                return done_action(Err(StepError::Critical(m)));
            },
            Ok(true) => {},
        }
        let link: String = concat3(release.as_str(), "/", name.as_str());
        let ln: String = concat4("ln -s ", shared.as_str(), " ", link.as_str());
        if history.len() <= j + 1 {
            return run_action(ln, false);
        }
        match check_status(&history[j + 1], ln.as_str()) {
            Some(e) => return done_action(Err(e)),
            None => {},
        }
        i = i + 1;
        j = j + 2;
    }
    done_action(Ok(()))
}

/// Links each configured file from the shared directory into the release.
#[derive(Debug, Clone, Copy, PartialEq, Eq, Structural)]
pub struct LinkFiles;

impl LinkFiles {
    pub open spec fn protocol(ctx: ContextView, h: Seq<CommandResult>) -> StepActionView {
        link_protocol(ctx, false, h)
    }

    pub fn get_name(&self) -> (r: &'static str)
        ensures
            r@ == "core:link:files"@,
    {
        "core:link:files"
    }

    pub fn execute(&self, context: &Context, history: &Vec<CommandResult>) -> (r: StepAction)
        ensures
            r@ == Self::protocol(context@, history@),
    {
        link_execute(context, false, history)
    }
}

/// Links each configured directory from the shared directory into the release.
#[derive(Debug, Clone, Copy, PartialEq, Eq, Structural)]
pub struct LinkDirs;

impl LinkDirs {
    pub open spec fn protocol(ctx: ContextView, h: Seq<CommandResult>) -> StepActionView {
        link_protocol(ctx, true, h)
    }

    pub fn get_name(&self) -> (r: &'static str)
        ensures
            r@ == "core:link:directories"@,
    {
        "core:link:directories"
    }

    pub fn execute(&self, context: &Context, history: &Vec<CommandResult>) -> (r: StepAction)
        ensures
            r@ == Self::protocol(context@, history@),
    {
        link_execute(context, true, history)
    }
}

/// `<deploy-path>/current`
pub open spec fn current_link(ctx: ContextView) -> Seq<char> {
    ctx.config.deploy_path + "/current"@
}

/// Pointing `current` at `target`: check whether `current` is a symbolic
/// link; if it is, remove it; then create it. Stops at the first failure.
pub open spec fn symlink_protocol(ctx: ContextView, target: Seq<char>, h: Seq<CommandResult>) -> StepActionView {
    let current = current_link(ctx);
    let rm = "rm "@ + current;
    let ln = "ln -s "@ + target + " "@ + current;
    if h.len() == 0 {
        run_spec(captured(file_exists_command_spec(current, FSResourceType::Symlink)))
    } else {
        match h[0] {
            Err(e) => done_spec(Err(StepErrorView::Critical(e@))),
            Ok(check) => if check.success {
                if h.len() == 1 {
                    run_spec(captured(rm))
                } else {
                    match status_error(h[1], rm) {
                        Some(e) => done_spec(Err(e)),
                        None => if h.len() == 2 {
                            run_spec(captured(ln))
                        } else {
                            done_spec(status_result(h[2], ln))
                        },
                    }
                }
            } else {
                if h.len() == 1 {
                    run_spec(captured(ln))
                } else {
                    done_spec(status_result(h[1], ln))
                }
            },
        }
    }
}

/// `symlink_protocol` for a target already trimmed.
pub fn symlink_execute(context: &Context, target: &str, history: &Vec<CommandResult>) -> (r: StepAction)
    ensures
        r@ == symlink_protocol(context@, target@, history@),
{
    let current: String = concat2(context.config.deploy_path.as_str(), "/current");
    if history.len() == 0 {
        return run_action(file_exists_command(current.as_str(), FSResourceType::Symlink), false);
    }
    let exists: bool = match exec_remote_file_exists(&history[0]) {
        Err(e) => return done_action(Err(StepError::Critical(e))),
        Ok(b) => b,
    };
    let ln: String = concat4("ln -s ", target, " ", current.as_str());
    if exists {
        let rm: String = concat2("rm ", current.as_str());
        if history.len() == 1 {
            return run_action(rm, false);
        }
        match check_status(&history[1], rm.as_str()) {
            Some(e) => return done_action(Err(e)),
            None => {},
        }
        if history.len() == 2 {
            return run_action(ln, false);
        }
        status_done(&history[2], ln.as_str())
    } else {
        if history.len() == 1 {
            return run_action(ln, false);
        }
        status_done(&history[1], ln.as_str())
    }
}

/// Points the `current` symbolic link at the new release.
#[derive(Debug, Clone, Copy, PartialEq, Eq, Structural)]
pub struct SymlinkCurrent;

impl SymlinkCurrent {
    pub open spec fn protocol(ctx: ContextView, h: Seq<CommandResult>) -> StepActionView {
        symlink_protocol(ctx, trim_spec(ctx.release_path), h)
    }

    pub fn get_name(&self) -> (r: &'static str)
        ensures
            r@ == "core:link:current"@,
    {
        "core:link:current"
    }

    pub fn execute(&self, context: &Context, history: &Vec<CommandResult>) -> (r: StepAction)
        ensures
            r@ == Self::protocol(context@, history@),
    {
        let target: String = trim(context.release_path.as_str());
        symlink_execute(context, target.as_str(), history)
    }
}

/// `rm -rf <releases>/<name>`
pub open spec fn remove_release_command(ctx: ContextView, name: Seq<char>) -> Seq<char> {
    "rm -rf "@ + ctx.releases_path + "/"@ + name
}

/// What is reported once removing `name` gave `out`.
pub open spec fn removal_notices(name: Seq<char>, success: bool) -> Seq<NoticeView> {
    if success {
        seq![NoticeView::Deleted(name)]
    } else {
        seq![NoticeView::CleanupFailed(name), NoticeView::Deleted(name)]
    }
}

/// Removing the releases `doomed[i..]`, the result for `doomed[k]` being
/// `h[k + 1]`. A release that fails to be removed is reported and the step
/// goes on; a command that cannot be run is a critical failure.
pub open spec fn remove_from(ctx: ContextView, doomed: Seq<Seq<char>>, h: Seq<CommandResult>, i: int) -> StepActionView
    decreases doomed.len() - i,
{
    let notices = if 0 < i && i <= h.len() - 1 && h[i] is Ok {
        removal_notices(doomed[i - 1], h[i]->Ok_0.success)
    } else {
        Seq::empty()
    };
    if i < 0 || i >= doomed.len() {
        StepActionView { notices, next: StepNextView::Done(Ok(())) }
    } else if h.len() <= i + 1 {
        StepActionView { notices, next: StepNextView::Run(captured(remove_release_command(ctx, doomed[i]))) }
    } else {
        match h[i + 1] {
            Err(e) => done_spec(Err(StepErrorView::Critical(e@))),
            Ok(_) => remove_from(ctx, doomed, h, i + 1),
        }
    }
}

/// Cleaning up: list the releases (oldest first); when there are more than
/// `keep-releases` (read as an unsigned size), remove the oldest ones so that
/// `keep-releases` remain. A listing that cannot be run is a non-critical
/// failure.
pub open spec fn cleanup_protocol(ctx: ContextView, h: Seq<CommandResult>) -> StepActionView {
    if h.len() == 0 {
        run_spec(captured(list_dir_command_spec(ctx.releases_path, SortOrder::Asc)))
    } else {
        match h[0] {
            Err(e) => done_spec(Err(StepErrorView::NonCritical(e@))),
            Ok(listing) => {
                let names = listed_names(listing.stdout@);
                let keep = ctx.config.keep_releases as usize;
                if names.len() <= keep {
                    done_spec(Ok(()))
                } else {
                    remove_from(ctx, names.subrange(0, names.len() - keep), h, 0)
                }
            },
        }
    }
}

fn removal_notices_exec(name: &String, success: bool) -> (r: Vec<Notice>)
    ensures
        r@.map_values(|n: Notice| n@) == removal_notices(name@, success),
{
    let mut r: Vec<Notice> = Vec::new();
    if !success {
        r.push(Notice::CleanupFailed(name.clone()));
    }
    r.push(Notice::Deleted(name.clone()));
    assert(r@.map_values(|n: Notice| n@) =~= removal_notices(name@, success));
    r
}

/// The notices `remove_from` shows at position `i`.
fn notices_after(history: &Vec<CommandResult>, releases: &Vec<String>, i: usize) -> (r: Vec<Notice>)
    requires
        i <= releases@.len(),
        i > 0 ==> i < history@.len(),
    ensures
        r@.map_values(|n: Notice| n@) == (if 0 < i && i <= history@.len() - 1 && history@[i as int] is Ok {
            removal_notices(releases@.map_values(|s: String| s@)[i - 1], history@[i as int]->Ok_0.success)
        } else {
            Seq::empty()
        }),
{
    if i > 0 {
        match &history[i] {
            Ok(out) => {
                assert(releases@.map_values(|s: String| s@)[i - 1] == releases@[i - 1]@);
                return removal_notices_exec(&releases[i - 1], out.success);
            },
            Err(_) => {},
        }
    }
    let r: Vec<Notice> = Vec::new();
    assert(r@.map_values(|n: Notice| n@) =~= Seq::<NoticeView>::empty());
    r
}

/// Removes the oldest releases beyond the number to keep.
#[derive(Debug, Clone, Copy, PartialEq, Eq, Structural)]
pub struct CleanUpReleases;

impl CleanUpReleases {
    pub open spec fn protocol(ctx: ContextView, h: Seq<CommandResult>) -> StepActionView {
        cleanup_protocol(ctx, h)
    }

    pub fn get_name(&self) -> (r: &'static str)
        ensures
            r@ == "core:cleanup:releases"@,
    {
        "core:cleanup:releases"
    }

    pub fn execute(&self, context: &Context, history: &Vec<CommandResult>) -> (r: StepAction)
        ensures
            r@ == Self::protocol(context@, history@),
    {
        if history.len() == 0 {
            return run_action(list_dir_command(context.releases_path.as_str(), SortOrder::Asc), false);
        }
        let releases: Vec<String> = match exec_remote_fetch_sorted_filenames_in_dir(&history[0]) {
            Ok(n) => n,
            Err(e) => return done_action(Err(StepError::nonCriticalfromError(e.as_str()))),
        };
        let ghost names = releases@.map_values(|s: String| s@);
        let keep_releases: usize = #[verifier::truncate] (context.config.keep_releases as usize);
        let total_releases: usize = releases.len();
        if total_releases <= keep_releases {
            return done_action(Ok(()));
        }
        let to_remove: usize = total_releases - keep_releases;
        let ghost doomed = names.subrange(0, to_remove as int);
        let mut i: usize = 0;
        while i < to_remove
            invariant
                names == releases@.map_values(|s: String| s@),
                to_remove <= releases@.len(),
                doomed == names.subrange(0, to_remove as int),
                i <= to_remove,
                i <= history@.len(),
                i > 0 ==> i < history@.len(),
                cleanup_protocol(context@, history@) == remove_from(context@, doomed, history@, i as int),
            decreases to_remove - i,
        {
            let notices: Vec<Notice> = notices_after(history, &releases, i);
            assert(doomed[i as int] == releases@[i as int]@);
            if history.len() <= i + 1 {
                let c: String = concat4("rm -rf ", context.releases_path.as_str(), "/", releases[i].as_str());
                return StepAction { notices, next: StepNext::Run(crate::cmd::RemoteCommand { command: c, inherit_output: false }) };
            }
            match &history[i + 1] {
                Err(e) => return done_action(Err(StepError::Critical(e.clone()))),
                Ok(_) => {},
            }
            i = i + 1;
        }
        let notices: Vec<Notice> = notices_after(history, &releases, i);
        StepAction { notices, next: StepNext::Done(Ok(())) }
    }
}

proof fn lemma_remove_from_runs(ctx: ContextView, doomed: Seq<Seq<char>>, h: Seq<CommandResult>, i: int)
    requires
        0 <= i,
        i + 1 <= h.len(),
    ensures
        remove_from(ctx, doomed, h, i).next matches StepNextView::Run(c) ==> h.len() - 1 < doomed.len()
            && c == captured(remove_release_command(ctx, doomed[h.len() - 1])),
    decreases doomed.len() - i,
{
    if i < doomed.len() && h.len() > i + 1 {
        if h[i + 1] is Ok {
            lemma_remove_from_runs(ctx, doomed, h, i + 1);
        }
    }
}

proof fn lemma_remove_from_done(ctx: ContextView, doomed: Seq<Seq<char>>, h: Seq<CommandResult>, i: int)
    requires
        0 <= i,
        i + 1 <= h.len(),
    ensures
        remove_from(ctx, doomed, h, i).next == StepNextView::Done(Ok(())) ==> h.len() >= doomed.len() + 1,
    decreases doomed.len() - i,
{
    if i < doomed.len() && h.len() > i + 1 {
        if h[i + 1] is Ok {
            lemma_remove_from_done(ctx, doomed, h, i + 1);
        }
    }
}

/// Law: cleaning up ends well only once every release beyond the number to
/// keep has had its removal command run.
pub proof fn cleanup_finishes_after_every_removal(ctx: ContextView, h: Seq<CommandResult>)
    requires
        h.len() >= 1,
        h[0] is Ok,
    ensures
        cleanup_protocol(ctx, h).next == StepNextView::Done(Ok(())) ==> {
            let names = listed_names(h[0]->Ok_0.stdout@);
            let keep = ctx.config.keep_releases as usize;
            names.len() > keep ==> h.len() >= names.len() - keep + 1
        },
{
    let names = listed_names(h[0]->Ok_0.stdout@);
    let keep = ctx.config.keep_releases as usize;
    if names.len() > keep {
        lemma_remove_from_done(ctx, names.subrange(0, names.len() - keep), h, 0);
    }
}

/// Law: cleaning up removes only releases beyond the number to keep, the
/// oldest first, one per command: the `k`-th removal (counting from 1)
/// removes the `k`-th oldest release, and only when more than
/// `keep-releases` releases exist.
pub proof fn cleanup_removes_only_the_oldest_releases(ctx: ContextView, h: Seq<CommandResult>)
    requires
        h.len() >= 1,
        h[0] is Ok,
    ensures
        cleanup_protocol(ctx, h).next matches StepNextView::Run(c) ==> {
            let names = listed_names(h[0]->Ok_0.stdout@);
            let keep = ctx.config.keep_releases as usize;
            &&& names.len() > keep
            &&& h.len() - 1 < names.len() - keep
            &&& c == captured("rm -rf "@ + ctx.releases_path + "/"@ + names[h.len() - 1])
        },
{
    let names = listed_names(h[0]->Ok_0.stdout@);
    let keep = ctx.config.keep_releases as usize;
    if names.len() > keep {
        let doomed = names.subrange(0, names.len() - keep);
        lemma_remove_from_runs(ctx, doomed, h, 0);
    }
}

/// Law: linking runs only two kinds of commands: a check that a configured
/// entry exists in the shared directory, and the link from the release to
/// that shared entry.
pub proof fn links_point_into_shared(ctx: ContextView, dirs: bool, h: Seq<CommandResult>)
    ensures
        link_protocol(ctx, dirs, h).next matches StepNextView::Run(c) ==> {
            exists|k: int| 0 <= k < link_names(ctx, dirs).len()
                && (c == captured(file_exists_command_spec(shared_entry(ctx, #[trigger] link_names(ctx, dirs)[k]), link_kind(dirs)))
                || c == captured(link_command(ctx, link_names(ctx, dirs)[k])))
        },
{
    lemma_link_from_runs(ctx, dirs, link_names(ctx, dirs), h, 0);
}

proof fn lemma_link_from_runs(ctx: ContextView, dirs: bool, names: Seq<Seq<char>>, h: Seq<CommandResult>, i: int)
    requires
        0 <= i,
    ensures
        link_from(ctx, dirs, names, h, i).next matches StepNextView::Run(c) ==> exists|k: int| 0 <= k < names.len()
            && (c == captured(file_exists_command_spec(shared_entry(ctx, #[trigger] names[k]), link_kind(dirs)))
            || c == captured(link_command(ctx, names[k]))),
    decreases names.len() - i,
{
    if i < names.len() {
        let _ = names[i];
        if h.len() > 2 * i + 1 && h[2 * i] is Ok && h[2 * i]->Ok_0.success {
            lemma_link_from_runs(ctx, dirs, names, h, i + 1);
        }
    }
}

proof fn lemma_link_from_finishes(ctx: ContextView, dirs: bool, names: Seq<Seq<char>>, h: Seq<CommandResult>, i: int)
    requires
        0 <= i,
        h.len() >= 2 * names.len(),
    ensures
        link_from(ctx, dirs, names, h, i).next is Done,
    decreases names.len() - i,
{
    if i < names.len() {
        lemma_link_from_finishes(ctx, dirs, names, h, i + 1);
    }
}

proof fn lemma_remove_from_finishes(ctx: ContextView, doomed: Seq<Seq<char>>, h: Seq<CommandResult>, i: int)
    requires
        0 <= i,
        h.len() >= doomed.len() + 1,
    ensures
        remove_from(ctx, doomed, h, i).next is Done,
    decreases doomed.len() - i,
{
    if i < doomed.len() {
        lemma_remove_from_finishes(ctx, doomed, h, i + 1);
    }
}

/// Law (linking finishes): with a result for each of its two commands per
/// entry, a linking step is over.
pub proof fn linking_finishes(ctx: ContextView, dirs: bool, h: Seq<CommandResult>)
    requires
        h.len() >= 2 * link_names(ctx, dirs).len(),
    ensures
        link_protocol(ctx, dirs, h).next is Done,
{
    lemma_link_from_finishes(ctx, dirs, link_names(ctx, dirs), h, 0);
}

/// Law (cleaning up finishes): with the listing and a result for each
/// listed release, cleaning up is over.
pub proof fn cleanup_finishes(ctx: ContextView, h: Seq<CommandResult>)
    requires
        h.len() >= 1,
        h[0] matches Ok(listing) ==> h.len() >= listed_names(listing.stdout@).len() + 1,
    ensures
        cleanup_protocol(ctx, h).next is Done,
{
    if let Ok(listing) = h[0] {
        let names = listed_names(listing.stdout@);
        let keep = ctx.config.keep_releases as usize;
        if names.len() > keep {
            lemma_remove_from_finishes(ctx, names.subrange(0, names.len() - keep), h, 0);
        }
    }
}

/// Law (pointing `current` finishes): after three results the step is over.
pub proof fn symlink_finishes(ctx: ContextView, target: Seq<char>, h: Seq<CommandResult>)
    requires
        h.len() >= 3,
    ensures
        symlink_protocol(ctx, target, h).next is Done,
{
}

/// Law: pointing `current` at `target` is over, with success, only right
/// after its `ln -s <target> <deploy-path>/current` command has exited
/// successfully. When that command has a result, the step is over: a command
/// that could not be run fails it critically with its error text, and one
/// that exited unsuccessfully fails it critically naming the command and its
/// exit code.
pub proof fn symlink_ends_as_its_link_command(ctx: ContextView, target: Seq<char>, h: Seq<CommandResult>)
    requires
        h.len() >= 1,
        symlink_protocol(ctx, target, h.drop_last()).next is Run,
    ensures
        ({
            let ln = "ln -s "@ + target + " "@ + (ctx.config.deploy_path + "/current"@);
            let asked = symlink_protocol(ctx, target, h.drop_last()).next;
            let answer = symlink_protocol(ctx, target, h).next;
            &&& answer == StepNextView::Done(Ok(())) ==> asked == StepNextView::Run(captured(ln))
                && (h.last() matches Ok(o) && o.success)
            &&& asked == StepNextView::Run(captured(ln)) ==> answer == StepNextView::Done(match h.last() {
                Err(e) => Err(StepErrorView::Critical(e@)),
                Ok(o) => if o.success {
                    Ok(())
                } else {
                    Err(StepErrorView::Critical(failed_command_message(ln, o.code)))
                },
            })
        }),
{
    reveal_strlit("ln -s ");
    reveal_strlit("rm ");
    reveal_strlit("test -");
    let current = ctx.config.deploy_path + "/current"@;
    let ln = "ln -s "@ + target + " "@ + current;
    let rm = "rm "@ + current;
    let test = file_exists_command_spec(current, FSResourceType::Symlink);
    assert(ln[0] == 'l');
    assert(rm[0] == 'r');
    assert(test[0] == 't');
    let p = h.drop_last();
    assert forall|i: int| 0 <= i < p.len() implies p[i] == h[i] by {}
}

/// Every result so far is an output of a successful command.
pub open spec fn all_succeeded(h: Seq<CommandResult>) -> bool {
    forall|k: int| 0 <= k < h.len() ==> (#[trigger] h[k] matches Ok(o) && o.success)
}

proof fn lemma_link_from_in_order(ctx: ContextView, dirs: bool, names: Seq<Seq<char>>, h: Seq<CommandResult>, i: int)
    requires
        0 <= i <= names.len(),
        h.len() >= 2 * i,
        all_succeeded(h),
    ensures
        h.len() >= 2 * names.len() ==> link_from(ctx, dirs, names, h, i).next == StepNextView::Done(Ok(())),
        h.len() < 2 * names.len() && h.len() % 2 == 0 ==> link_from(ctx, dirs, names, h, i).next
            == StepNextView::Run(captured(file_exists_command_spec(shared_entry(ctx, names[h.len() as int / 2]), link_kind(dirs)))),
        h.len() < 2 * names.len() && h.len() % 2 == 1 ==> link_from(ctx, dirs, names, h, i).next
            == StepNextView::Run(captured(link_command(ctx, names[h.len() as int / 2]))),
    decreases names.len() - i,
{
    if i < names.len() && h.len() > 2 * i {
        assert(h[2 * i] matches Ok(o) && o.success);
        if h.len() > 2 * i + 1 {
            assert(h[2 * i + 1] matches Ok(o) && o.success);
            lemma_link_from_in_order(ctx, dirs, names, h, i + 1);
        }
    }
}

proof fn lemma_link_from_success_needs(ctx: ContextView, dirs: bool, names: Seq<Seq<char>>, h: Seq<CommandResult>, i: int)
    requires
        0 <= i <= names.len(),
        h.len() >= 2 * i,
    ensures
        link_from(ctx, dirs, names, h, i).next == StepNextView::Done(Ok(())) ==> h.len() >= 2 * names.len()
            && forall|k: int| 2 * i <= k < 2 * names.len() ==> (#[trigger] h[k] matches Ok(o) && o.success),
    decreases names.len() - i,
{
    if i < names.len() {
        if link_from(ctx, dirs, names, h, i).next == StepNextView::Done(Ok(())) {
            assert(h.len() > 2 * i + 1);
            lemma_link_from_success_needs(ctx, dirs, names, h, i + 1);
            assert(h[2 * i] matches Ok(o) && o.success);
            assert(status_error(h[2 * i + 1], link_command(ctx, names[i])) is None);
            assert(h[2 * i + 1] matches Ok(o) && o.success);
            assert(link_from(ctx, dirs, names, h, i + 1).next == StepNextView::Done(Ok(())));
        }
    }
}

/// Law: linking handles the configured entries one after the other. While
/// every command so far has succeeded, it checks that the next entry exists
/// in the shared directory, then links it into the release, and it ends well
/// once every entry has been checked and linked. It ends well only when every
/// one of those commands succeeded.
pub proof fn linking_checks_then_links_every_entry(ctx: ContextView, dirs: bool, h: Seq<CommandResult>)
    ensures
        ({
            let names = if dirs { ctx.config.link_dirs } else { ctx.config.link_files };
            let kind = if dirs { FSResourceType::Directory } else { FSResourceType::File };
            let next = link_protocol(ctx, dirs, h).next;
            &&& all_succeeded(h) && h.len() >= 2 * names.len() ==> next == StepNextView::Done(Ok(()))
            &&& all_succeeded(h) && h.len() < 2 * names.len() && h.len() % 2 == 0 ==> next == StepNextView::Run(
                captured(file_exists_command_spec(ctx.shared_path + "/"@ + names[h.len() as int / 2], kind)),
            )
            &&& all_succeeded(h) && h.len() < 2 * names.len() && h.len() % 2 == 1 ==> next == StepNextView::Run(
                captured("ln -s "@ + (ctx.shared_path + "/"@ + names[h.len() as int / 2]) + " "@
                    + (trim_spec(ctx.release_path) + "/"@ + names[h.len() as int / 2])),
            )
            &&& next == StepNextView::Done(Ok(())) ==> h.len() >= 2 * names.len()
                && forall|k: int| 0 <= k < 2 * names.len() ==> (#[trigger] h[k] matches Ok(o) && o.success)
        }),
{
    let names = link_names(ctx, dirs);
    lemma_link_from_success_needs(ctx, dirs, names, h, 0);
    if all_succeeded(h) {
        lemma_link_from_in_order(ctx, dirs, names, h, 0);
    }
}

/// Law: when `<deploy-path>/current` is already a symbolic link, pointing it
/// at `target` removes it first and creates it only once the removal has
/// succeeded; a removal that fails ends the step critically, naming the
/// removal command. When it is not a link, the link is created at once.
pub proof fn symlink_replaces_an_existing_link(ctx: ContextView, target: Seq<char>, check: CommandOutput, rm: CommandResult)
    ensures
        ({
            let current = ctx.config.deploy_path + "/current"@;
            let one = seq![Ok::<CommandOutput, String>(check)];
            let two = seq![Ok::<CommandOutput, String>(check), rm];
            &&& check.success ==> symlink_protocol(ctx, target, one).next == StepNextView::Run(captured("rm "@ + current))
            &&& !check.success ==> symlink_protocol(ctx, target, one).next
                == StepNextView::Run(captured("ln -s "@ + target + " "@ + current))
            &&& check.success ==> symlink_protocol(ctx, target, two).next == match rm {
                Err(e) => StepNextView::Done(Err(StepErrorView::Critical(e@))),
                Ok(o) => if o.success {
                    StepNextView::Run(captured("ln -s "@ + target + " "@ + current))
                } else {
                    StepNextView::Done(Err(StepErrorView::Critical(failed_command_message("rm "@ + current, o.code))))
                },
            }
        }),
{
    let one = seq![Ok::<CommandOutput, String>(check)];
    assert(one[0] == Ok::<CommandOutput, String>(check));
    let two = seq![Ok::<CommandOutput, String>(check), rm];
    assert(two[0] == Ok::<CommandOutput, String>(check));
    assert(two[1] == rm);
}

} // verus!
