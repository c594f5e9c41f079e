//! Cloning the repository into the release.

use vstd::prelude::*;
use crate::cmd::{CommandResult, inherited};
use crate::text::{concat4, trim, trim_spec};
use super::{Context, ContextView, StepAction, StepActionView, done_action, done_spec, run_action, run_spec};
use super::error::{StepError, StepErrorView};

verus! {

/// Clones the repository into the release directory, its output shown. Only
/// a command that cannot be run fails the step; its exit status is not
/// looked at.
#[derive(Debug, Clone, Copy, PartialEq, Eq, Structural)]
pub struct GitClone;

impl GitClone {
    /// `git clone <repo-url> <release>`
    pub open spec fn command(ctx: ContextView) -> Seq<char> {
        "git clone "@ + trim_spec(ctx.config.repo_url) + " "@ + trim_spec(ctx.release_path)
    }

    pub open spec fn protocol(ctx: ContextView, h: Seq<CommandResult>) -> StepActionView {
        if h.len() == 0 {
            run_spec(inherited(Self::command(ctx)))
        } else {
            match h[0] {
                Err(e) => done_spec(Err(StepErrorView::Critical(e@))),
                Ok(_) => done_spec(Ok(())),
            }
        }
    }

    pub fn get_name(&self) -> (r: &'static str)
        ensures
            r@ == "git:clone"@,
    {
        "git:clone"
    }

    pub fn execute(&self, context: &Context, history: &Vec<CommandResult>) -> (r: StepAction)
        ensures
            r@ == Self::protocol(context@, history@),
    {
        if history.len() == 0 {
            let repo: String = trim(context.config.repo_url.as_str());
            let release: String = trim(context.release_path.as_str());
            return run_action(concat4("git clone ", repo.as_str(), " ", release.as_str()), true);
        }
        match &history[0] {
            Err(e) => done_action(Err(StepError::Critical(e.clone()))),
            Ok(_) => done_action(Ok(())),
        }
    }
}

} // verus!
