//! How a deployment step fails.

use vstd::prelude::*;
use crate::text::{concat3, concat5, decimal, int_to_string};

verus! {

/// A failed step. A critical failure stops the run (a deployment then rolls
/// back); a non-critical one is reported and the run goes on.
#[derive(Debug, PartialEq, Eq)]
pub enum StepError {
    /// Critical error
    Critical(String),
    /// Non-critical error
    NonCritical(String),
}

/// `StepError` with its text as a character sequence.
pub enum StepErrorView {
    Critical(Seq<char>),
    NonCritical(Seq<char>),
}

impl View for StepError {
    type V = StepErrorView;

    open spec fn view(&self) -> StepErrorView {
        match self {
            StepError::Critical(m) => StepErrorView::Critical(m@),
            StepError::NonCritical(m) => StepErrorView::NonCritical(m@),
        }
    }
}

/// The message for a command that exited unsuccessfully, with its exit code
/// when it has one.
pub open spec fn failed_command_message(cmd: Seq<char>, status: Option<i32>) -> Seq<char> {
    match status {
        Some(code) => "Command '"@ + cmd + "' exited with non-sucessful status code '"@ + decimal(code as int) + "'"@,
        None => "Command '"@ + cmd + "' exited with non-sucessful status code"@,
    }
}

impl StepError {
    /// The critical error for a command that exited unsuccessfully.
    #[allow(non_snake_case)]
    pub fn fromFailedCommand(cmd: &str, status: Option<i32>) -> (r: StepError)
        ensures
            r@ == StepErrorView::Critical(failed_command_message(cmd@, status)),
    {
        match status {
            Some(code) => {
                let c: String = int_to_string(code);
                StepError::Critical(concat5(
                    "Command '",
                    cmd,
                    "' exited with non-sucessful status code '",
                    c.as_str(),
                    "'",
                ))
            },
            None => StepError::Critical(concat3("Command '", cmd, "' exited with non-sucessful status code")),
        }
    }

    /// The non-critical error carrying an error's text.
    #[allow(non_snake_case)]
    pub fn nonCriticalfromError(message: &str) -> (r: StepError)
        ensures
            r@ == StepErrorView::NonCritical(message@),
    {
        StepError::NonCritical(String::from_str(message))
    }

    /// Whether the run must stop.
    pub fn is_critical(&self) -> (r: bool)
        ensures
            r == (self@ is Critical),
    {
        match self {
            StepError::Critical(_) => true,
            StepError::NonCritical(_) => false,
        }
    }

    /// The error's text.
    pub fn message(&self) -> (r: String)
        ensures
            r@ == match self@ {
                StepErrorView::Critical(m) => m,
                StepErrorView::NonCritical(m) => m,
            },
    {
        match self {
            StepError::Critical(m) => m.clone(),
            StepError::NonCritical(m) => m.clone(),
        }
    }
}

} // verus!
