//! The steps of a rollback.

use vstd::prelude::*;
use crate::cmd::{CommandResult, captured};
use crate::text::{concat2, trim, trim_spec};
use super::{Context, ContextView, StepAction, StepActionView, done_action, done_spec, run_action, run_spec};
use super::core_steps::{symlink_execute, symlink_protocol};
use super::error::{StepError, StepErrorView};

verus! {

/// The failure of a rollback that has no release to go back to.
pub open spec fn no_previous_release_message() -> Seq<char> {
    "Can't rollback because there is no release to rollback to."@
}

/// Checks that there is a release to roll back to.
#[derive(Debug, Clone, Copy, PartialEq, Eq, Structural)]
pub struct CanRollBack;

impl CanRollBack {
    /// No command; fails critically when there is no previous release.
    pub open spec fn protocol(ctx: ContextView, h: Seq<CommandResult>) -> StepActionView {
        match ctx.prev_release_path {
            Some(_) => done_spec(Ok(())),
            None => done_spec(Err(StepErrorView::Critical(no_previous_release_message()))),
        }
    }

    pub fn get_name(&self) -> (r: &'static str)
        ensures
            r@ == "rollback:check"@,
    {
        "rollback:check"
    }

    pub fn execute(&self, context: &Context, history: &Vec<CommandResult>) -> (r: StepAction)
        ensures
            r@ == Self::protocol(context@, history@),
    {
        match &context.prev_release_path {
            Some(_) => done_action(Ok(())),
            None => done_action(Err(StepError::Critical(
                String::from_str("Can't rollback because there is no release to rollback to."),
            ))),
        }
    }
}

/// Removes the release being rolled back from (not the shared files).
#[derive(Debug, Clone, Copy, PartialEq, Eq, Structural)]
pub struct RemoveCurrentRelease;

impl RemoveCurrentRelease {
    /// `rm -rf <release>`
    pub open spec fn command(ctx: ContextView) -> Seq<char> {
        "rm -rf "@ + ctx.release_path
    }

    pub open spec fn protocol(ctx: ContextView, h: Seq<CommandResult>) -> StepActionView {
        if h.len() == 0 {
            run_spec(captured(Self::command(ctx)))
        } else {
            match h[0] {
                Err(e) => done_spec(Err(StepErrorView::Critical(e@))),
                Ok(out) => if out.success {
                    done_spec(Ok(()))
                } else {
                    done_spec(Err(StepErrorView::Critical("Failed to remove current release at "@ + ctx.release_path)))
                },
            }
        }
    }

    pub fn get_name(&self) -> (r: &'static str)
        ensures
            r@ == "rollback:rm:latest"@,
    {
        "rollback:rm:latest"
    }

    pub fn execute(&self, context: &Context, history: &Vec<CommandResult>) -> (r: StepAction)
        ensures
            r@ == Self::protocol(context@, history@),
    {
        if history.len() == 0 {
            return run_action(concat2("rm -rf ", context.release_path.as_str()), false);
        }
        match &history[0] {
            Err(e) => done_action(Err(StepError::Critical(e.clone()))),
            Ok(out) => if out.success {
                done_action(Ok(()))
            } else {
                done_action(Err(StepError::Critical(
                    concat2("Failed to remove current release at ", context.release_path.as_str()),
                )))
            },
        }
    }
}

/// Points the `current` symbolic link at the previous release, completing
/// the rollback.
#[derive(Debug, Clone, Copy, PartialEq, Eq, Structural)]
pub struct SymlinkPreviousRelease;

impl SymlinkPreviousRelease {
    pub open spec fn protocol(ctx: ContextView, h: Seq<CommandResult>) -> StepActionView {
        symlink_protocol(ctx, trim_spec(ctx.prev_release_path->Some_0), h)
    }

    pub fn get_name(&self) -> (r: &'static str)
        ensures
            r@ == "rollback:symlink:previous"@,
    {
        "rollback:symlink:previous"
    }

    /// Requires a previous release in the context.
    pub fn execute(&self, context: &Context, history: &Vec<CommandResult>) -> (r: StepAction)
        requires
            context.prev_release_path is Some,
        ensures
            r@ == Self::protocol(context@, history@),
    {
        let prev: &String = context.prev_release_path.as_ref().unwrap();
        let target: String = trim(prev.as_str());
        symlink_execute(context, target.as_str(), history)
    }
}

} // verus!
