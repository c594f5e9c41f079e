//! Installing PHP dependencies in the release.

use vstd::prelude::*;
use crate::cmd::{CommandResult, inherited};
use crate::text::{concat3, trim, trim_spec};
use super::{Context, ContextView, StepAction, StepActionView, single_command, single_command_spec};

verus! {

/// Runs `composer install` in the release directory, its output shown.
#[derive(Debug, Clone, Copy, PartialEq, Eq, Structural)]
pub struct ComposerInstall;

impl ComposerInstall {
    /// `cd <release> && composer install`
    pub open spec fn command(ctx: ContextView) -> Seq<char> {
        "cd "@ + trim_spec(ctx.release_path) + " && composer install"@
    }

    pub open spec fn protocol(ctx: ContextView, h: Seq<CommandResult>) -> StepActionView {
        single_command_spec(inherited(Self::command(ctx)), Self::command(ctx), h)
    }

    pub fn get_name(&self) -> (r: &'static str)
        ensures
            r@ == "composer:install"@,
    {
        "composer:install"
    }

    pub fn execute(&self, context: &Context, history: &Vec<CommandResult>) -> (r: StepAction)
        ensures
            r@ == Self::protocol(context@, history@),
    {
        let release: String = trim(context.release_path.as_str());
        let c: String = concat3("cd ", release.as_str(), " && composer install");
        let f: String = c.clone();
        single_command(c, true, f.as_str(), history)
    }
}

} // verus!
