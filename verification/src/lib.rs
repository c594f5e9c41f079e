//! Remote deployment automation: configuration parsing, recipes of deployment
//! steps and the decision logic that drives a deployment or a rollback.
//!
//! The library never talks to a server itself. Every piece of logic that
//! alternates remote work and decisions is written as a protocol: given what
//! has happened so far, it answers with the next remote command to run or with
//! its final result.

use vstd::prelude::*;

pub mod cmd;
pub mod config;
pub mod config_steps;
pub mod recipe;
pub mod steps;
pub mod text;
pub mod toml;

verus! {

/// What the tool was asked to do with a stage.
#[derive(Clone, Copy, PartialEq, Eq, Structural, Debug)]
pub enum Operation {
    Deploy,
    Rollback,
}

} // verus!
