//! Running a recipe: which step runs next, when a deployment stops, and when
//! it rolls back.
//!
//! The caller runs each step (see `Step::execute`) and reports its result;
//! the functions here answer with what to show and what to do next.

use vstd::prelude::*;
use crate::recipe::Recipe;
use crate::steps::{Context, Step};
use crate::steps::error::{StepError, StepErrorView};

verus! {

/// Something a run reports on the way.
#[derive(Debug, PartialEq, Eq)]
pub enum DeployNotice {
    /// A deployment to `host` with the recipe called `recipe` begins.
    DeployStart { host: String, recipe: String },
    /// A rollback on `host` with the recipe called `recipe` begins.
    RollbackStart { host: String, recipe: String },
    /// The step of this name is about to run.
    ExecutingStep(String),
    /// The step of this name succeeded.
    StepSucceeded(String),
    /// A step failed without stopping the run.
    NonCriticalContinuing,
    /// A deployment step failed critically with this message.
    CriticalError(String),
    /// A rollback step failed critically with this message.
    RollbackFailed(String),
    /// A step failed with this message (a run that ignores failures goes on).
    StepFailed(String),
}

/// `DeployNotice` with its texts as character sequences.
pub enum DeployNoticeView {
    DeployStart { host: Seq<char>, recipe: Seq<char> },
    RollbackStart { host: Seq<char>, recipe: Seq<char> },
    ExecutingStep(Seq<char>),
    StepSucceeded(Seq<char>),
    NonCriticalContinuing,
    CriticalError(Seq<char>),
    RollbackFailed(Seq<char>),
    StepFailed(Seq<char>),
}

impl View for DeployNotice {
    type V = DeployNoticeView;

    open spec fn view(&self) -> DeployNoticeView {
        match self {
            DeployNotice::DeployStart { host, recipe } => DeployNoticeView::DeployStart { host: host@, recipe: recipe@ },
            DeployNotice::RollbackStart { host, recipe } => DeployNoticeView::RollbackStart { host: host@, recipe: recipe@ },
            DeployNotice::ExecutingStep(n) => DeployNoticeView::ExecutingStep(n@),
            DeployNotice::StepSucceeded(n) => DeployNoticeView::StepSucceeded(n@),
            DeployNotice::NonCriticalContinuing => DeployNoticeView::NonCriticalContinuing,
            DeployNotice::CriticalError(m) => DeployNoticeView::CriticalError(m@),
            DeployNotice::RollbackFailed(m) => DeployNoticeView::RollbackFailed(m@),
            DeployNotice::StepFailed(m) => DeployNoticeView::StepFailed(m@),
        }
    }
}

/// What a run of a list of steps does next.
#[derive(Debug, PartialEq, Eq)]
pub enum StepsNext {
    /// Run the step at this position and report its result.
    RunStep(usize),
    /// The run is over: all steps ran, or one failed critically (its message).
    Finished(Result<(), String>),
}

/// `StepsNext` with its text as a character sequence.
pub enum StepsNextView {
    RunStep(int),
    Finished(Result<(), Seq<char>>),
}

/// Notices to show, then what comes next.
#[derive(Debug, PartialEq, Eq)]
pub struct StepsAction {
    pub notices: Vec<DeployNotice>,
    pub next: StepsNext,
}

/// `StepsAction` with its texts as character sequences.
pub struct StepsActionView {
    pub notices: Seq<DeployNoticeView>,
    pub next: StepsNextView,
}

impl View for StepsAction {
    type V = StepsActionView;

    open spec fn view(&self) -> StepsActionView {
        StepsActionView {
            notices: self.notices@.map_values(|n: DeployNotice| n@),
            next: match self.next {
                StepsNext::RunStep(i) => StepsNextView::RunStep(i as int),
                StepsNext::Finished(Ok(())) => StepsNextView::Finished(Ok(())),
                StepsNext::Finished(Err(m)) => StepsNextView::Finished(Err(m@)),
            },
        }
    }
}

/// What a deployment or rollback does next.
#[derive(Debug, Clone, Copy, PartialEq, Eq)]
pub enum DeployNext {
    /// Run the deployment step at this position and report its result.
    RunDeployStep(usize),
    /// Run the rollback step at this position and report its result.
    RunRollbackStep(usize),
    /// The run is over.
    Finished(Result<(), ()>),
}

/// Notices to show, then what comes next.
#[derive(Debug, PartialEq, Eq)]
pub struct DeployAction {
    pub notices: Vec<DeployNotice>,
    pub next: DeployNext,
}

/// `DeployAction` with its texts as character sequences.
pub struct DeployActionView {
    pub notices: Seq<DeployNoticeView>,
    pub next: DeployNext,
}

impl View for DeployAction {
    type V = DeployActionView;

    open spec fn view(&self) -> DeployActionView {
        DeployActionView { notices: self.notices@.map_values(|n: DeployNotice| n@), next: self.next }
    }
}

/// A step result with its text as a character sequence.
pub open spec fn step_result_view(r: Result<(), StepError>) -> Result<(), StepErrorView> {
    match r {
        Ok(()) => Ok(()),
        Err(e) => Err(e@),
    }
}

/// Step results with their texts as character sequences.
pub open spec fn results_view(rs: Seq<Result<(), StepError>>) -> Seq<Result<(), StepErrorView>> {
    rs.map_values(|r: Result<(), StepError>| step_result_view(r))
}

/// A result that stops the run.
pub open spec fn is_critical(r: Result<(), StepErrorView>) -> bool {
    r matches Err(StepErrorView::Critical(_))
}

/// The message of a critical failure.
pub open spec fn critical_message(r: Result<(), StepErrorView>) -> Seq<char> {
    match r {
        Err(StepErrorView::Critical(m)) => m,
        _ => Seq::empty(),
    }
}

/// The message of a failure, critical or not.
pub open spec fn failure_message(r: Result<(), StepErrorView>) -> Seq<char> {
    match r {
        Err(StepErrorView::Critical(m)) => m,
        Err(StepErrorView::NonCritical(m)) => m,
        Ok(()) => Seq::empty(),
    }
}

/// The position of the first critical failure, if any.
pub open spec fn first_critical(rs: Seq<Result<(), StepErrorView>>) -> Option<int>
    decreases rs.len(),
{
    if rs.len() == 0 {
        None
    } else if is_critical(rs[0]) {
        Some(0)
    } else {
        match first_critical(rs.drop_first()) {
            Some(i) => Some(i + 1),
            None => None,
        }
    }
}

/// `first_critical` finds the first critical failure, and gives none only
/// when there is none.
pub proof fn first_critical_is_first(rs: Seq<Result<(), StepErrorView>>)
    ensures
        match first_critical(rs) {
            Some(i) => 0 <= i < rs.len() && is_critical(rs[i]) && forall|j: int| 0 <= j < i ==> !is_critical(rs[j]),
            None => forall|j: int| 0 <= j < rs.len() ==> !is_critical(rs[j]),
        },
    decreases rs.len(),
{
    if rs.len() > 0 {
        first_critical_is_first(rs.drop_first());
        assert forall|j: int| 0 < j < rs.len() implies rs.drop_first()[j - 1] == #[trigger] rs[j] by {}
    }
}

proof fn first_critical_unique(rs: Seq<Result<(), StepErrorView>>, i: int)
    requires
        0 <= i < rs.len(),
        is_critical(rs[i]),
        forall|j: int| 0 <= j < i ==> !is_critical(rs[j]),
    ensures
        first_critical(rs) == Some(i),
{
    first_critical_is_first(rs);
    match first_critical(rs) {
        Some(k) => {
            if k < i {
                assert(!is_critical(rs[k]));
            } else if k > i {
                assert(!is_critical(rs[i]));
            }
        },
        None => {
            assert(!is_critical(rs[i]));
        },
    }
}

/// What is shown once the latest step has run (nothing for a critical
/// failure: the caller of the run reports it).
pub open spec fn after_step_notices(steps: Seq<Step>, rs: Seq<Result<(), StepErrorView>>) -> Seq<DeployNoticeView> {
    if 0 < rs.len() <= steps.len() {
        match rs.last() {
            Ok(()) => seq![DeployNoticeView::StepSucceeded(steps[rs.len() - 1].name())],
            Err(StepErrorView::NonCritical(_)) => seq![DeployNoticeView::NonCriticalContinuing],
            Err(StepErrorView::Critical(_)) => Seq::empty(),
        }
    } else {
        Seq::empty()
    }
}

/// Running `steps` in order, given the results so far: the first critical
/// failure ends the run with its message; a non-critical failure is reported
/// and the run goes on; once every step has run the run ends well.
pub open spec fn steps_run(steps: Seq<Step>, rs: Seq<Result<(), StepErrorView>>) -> StepsActionView {
    match first_critical(rs) {
        Some(i) => StepsActionView { notices: Seq::empty(), next: StepsNextView::Finished(Err(critical_message(rs[i]))) },
        None => if rs.len() < steps.len() {
            StepsActionView {
                notices: after_step_notices(steps, rs).push(DeployNoticeView::ExecutingStep(steps[rs.len() as int].name())),
                next: StepsNextView::RunStep(rs.len() as int),
            }
        } else {
            StepsActionView { notices: after_step_notices(steps, rs), next: StepsNextView::Finished(Ok(())) }
        },
    }
}

/// Running the rollback steps of a recipe, given their results so far. A
/// critical failure ends the rollback in failure.
pub open spec fn rollback_run(recipe: Seq<char>, host: Seq<char>, rollback_steps: Seq<Step>, rs: Seq<Result<(), StepErrorView>>) -> DeployActionView {
    let inner = steps_run(rollback_steps, rs);
    let start = if rs.len() == 0 {
        seq![DeployNoticeView::RollbackStart { host, recipe }]
    } else {
        Seq::empty()
    };
    match inner.next {
        StepsNextView::RunStep(i) => DeployActionView { notices: start + inner.notices, next: DeployNext::RunRollbackStep(i as usize) },
        StepsNextView::Finished(Ok(())) => DeployActionView { notices: start + inner.notices, next: DeployNext::Finished(Ok(())) },
        StepsNextView::Finished(Err(m)) => DeployActionView {
            notices: (start + inner.notices).push(DeployNoticeView::RollbackFailed(m)),
            next: DeployNext::Finished(Err(())),
        },
    }
}

/// The results that belong to the deployment steps.
pub open spec fn deploy_results(steps: Seq<Step>, rs: Seq<Result<(), StepErrorView>>) -> Seq<Result<(), StepErrorView>> {
    if rs.len() <= steps.len() {
        rs
    } else {
        rs.subrange(0, steps.len() as int)
    }
}

/// Running a deployment, given the results of the steps run so far (the
/// deployment steps', then the rollback steps'). The deployment steps run in
/// order; the first critical failure is reported and the rollback steps run,
/// the deployment then ending as the rollback does.
pub open spec fn deploy_run(recipe: Seq<char>, host: Seq<char>, steps: Seq<Step>, rollback_steps: Seq<Step>, rs: Seq<Result<(), StepErrorView>>) -> DeployActionView {
    let drs = deploy_results(steps, rs);
    match first_critical(drs) {
        None => {
            let inner = steps_run(steps, drs);
            let start = if rs.len() == 0 {
                seq![DeployNoticeView::DeployStart { host, recipe }]
            } else {
                Seq::empty()
            };
            DeployActionView {
                notices: start + inner.notices,
                next: match inner.next {
                    StepsNextView::RunStep(i) => DeployNext::RunDeployStep(i as usize),
                    StepsNextView::Finished(_) => DeployNext::Finished(Ok(())),
                },
            }
        },
        Some(c) => {
            let rrs = rs.subrange(c + 1, rs.len() as int);
            let inner = rollback_run(recipe, host, rollback_steps, rrs);
            let report = if rrs.len() == 0 {
                seq![DeployNoticeView::CriticalError(critical_message(rs[c]))]
            } else {
                Seq::empty()
            };
            DeployActionView { notices: report + inner.notices, next: inner.next }
        },
    }
}

/// The position (within `results[lo..hi]`) of the first critical failure.
fn find_critical(results: &Vec<Result<(), StepError>>, lo: usize, hi: usize) -> (r: Option<usize>)
    requires
        lo <= hi <= results@.len(),
    ensures
        match first_critical(results_view(results@).subrange(lo as int, hi as int)) {
            Some(i) => r matches Some(k) && k as int == i && k < hi - lo,
            None => r is None,
        },
{
    let ghost sub = results_view(results@).subrange(lo as int, hi as int);
    proof { first_critical_is_first(sub); }
    let mut k: usize = lo;
    while k < hi
        invariant
            lo <= k <= hi <= results@.len(),
            sub == results_view(results@).subrange(lo as int, hi as int),
            forall|j: int| 0 <= j < k - lo ==> !is_critical(sub[j]),
        decreases hi - k,
    {
        assert(sub[k - lo] == step_result_view(results@[k as int]));
        match &results[k] {
            Err(StepError::Critical(_)) => {
                proof { first_critical_unique(sub, k - lo); }
                return Some(k - lo);
            },
            _ => {},
        }
        k = k + 1;
    }
    proof { first_critical_is_first(sub); }
    None
}

/// `steps_run` over `results[lo..hi]`.
fn steps_run_range(steps: &Vec<Step>, results: &Vec<Result<(), StepError>>, lo: usize, hi: usize) -> (r: StepsAction)
    requires
        lo <= hi <= results@.len(),
    ensures
        r@ == steps_run(steps@, results_view(results@).subrange(lo as int, hi as int)),
{
    let ghost rs = results_view(results@).subrange(lo as int, hi as int);
    match find_critical(results, lo, hi) {
        Some(i) => {
            proof { first_critical_is_first(rs); }
            assert(rs[i as int] == step_result_view(results@[lo + i]));
            let m: String = match &results[lo + i] {
                Err(e) => e.message(),
                Ok(()) => String::new(),
            };
            let notices: Vec<DeployNotice> = Vec::new();
            assert(notices@.map_values(|n: DeployNotice| n@) =~= Seq::<DeployNoticeView>::empty());
            return StepsAction { notices, next: StepsNext::Finished(Err(m)) };
        },
        None => {},
    }
    let done: usize = hi - lo;
    let mut notices: Vec<DeployNotice> = Vec::new();
    if 0 < done && done <= steps.len() {
        assert(rs.last() == step_result_view(results@[hi - 1]));
        match &results[hi - 1] {
            Ok(()) => notices.push(DeployNotice::StepSucceeded(String::from_str(steps[done - 1].get_name()))),
            Err(StepError::NonCritical(_)) => notices.push(DeployNotice::NonCriticalContinuing),
            Err(StepError::Critical(_)) => {},
        }
    }
    assert(notices@.map_values(|n: DeployNotice| n@) =~= after_step_notices(steps@, rs));
    if done < steps.len() {
        notices.push(DeployNotice::ExecutingStep(String::from_str(steps[done].get_name())));
        assert(notices@.map_values(|n: DeployNotice| n@) =~= after_step_notices(steps@, rs).push(
            DeployNoticeView::ExecutingStep(steps@[done as int].name()),
        ));
        StepsAction { notices, next: StepsNext::RunStep(done) }
    } else {
        StepsAction { notices, next: StepsNext::Finished(Ok(())) }
    }
}

/// The next move of a run of `steps`, given the results of the steps run so
/// far, as `steps_run` says.
pub fn execute_steps(steps: &Vec<Step>, results: &Vec<Result<(), StepError>>) -> (r: StepsAction)
    ensures
        r@ == steps_run(steps@, results_view(results@)),
{
    assert(results_view(results@).subrange(0, results@.len() as int) =~= results_view(results@));
    steps_run_range(steps, results, 0, results.len())
}

/// `rollback_run` over `results[lo..]`.
fn rollback_range(recipe: &Recipe, context: &Context, results: &Vec<Result<(), StepError>>, lo: usize) -> (r: DeployAction)
    requires
        lo <= results@.len(),
    ensures
        r@ == rollback_run(recipe.name@, context.config.host@, recipe.rollback_steps@,
            results_view(results@).subrange(lo as int, results@.len() as int)),
{
    let ghost rs = results_view(results@).subrange(lo as int, results@.len() as int);
    let inner: StepsAction = steps_run_range(&recipe.rollback_steps, results, lo, results.len());
    let mut notices: Vec<DeployNotice> = Vec::new();
    if lo == results.len() {
        notices.push(DeployNotice::RollbackStart { host: context.config.host.clone(), recipe: recipe.name.clone() });
    }
    let ghost start = notices@.map_values(|n: DeployNotice| n@);
    let ghost inner_notices = inner.notices@.map_values(|n: DeployNotice| n@);
    assert(start =~= (if rs.len() == 0 {
        seq![DeployNoticeView::RollbackStart { host: context.config.host@, recipe: recipe.name@ }]
    } else {
        Seq::empty()
    }));
    let StepsAction { notices: mut inner_list, next } = inner;
    notices.append(&mut inner_list);
    assert(notices@.map_values(|n: DeployNotice| n@) =~= start + inner_notices);
    match next {
        StepsNext::RunStep(i) => DeployAction { notices, next: DeployNext::RunRollbackStep(i) },
        StepsNext::Finished(Ok(())) => DeployAction { notices, next: DeployNext::Finished(Ok(())) },
        StepsNext::Finished(Err(m)) => {
            let ghost before = notices@.map_values(|n: DeployNotice| n@);
            notices.push(DeployNotice::RollbackFailed(m));
            assert(notices@.map_values(|n: DeployNotice| n@) =~= before.push(notices@.last()@));
            DeployAction { notices, next: DeployNext::Finished(Err(())) }
        },
    }
}

/// The next move of a rollback, given the results of the rollback steps run
/// so far, as `rollback_run` says.
pub fn rollback(recipe: &Recipe, context: &Context, results: &Vec<Result<(), StepError>>) -> (r: DeployAction)
    ensures
        r@ == rollback_run(recipe.name@, context.config.host@, recipe.rollback_steps@, results_view(results@)),
{
    assert(results_view(results@).subrange(0, results@.len() as int) =~= results_view(results@));
    rollback_range(recipe, context, results, 0)
}

/// The next move of a deployment, given the results of the steps run so far
/// (deployment steps first, then rollback steps), as `deploy_run` says.
pub fn deploy(recipe: &Recipe, context: &Context, results: &Vec<Result<(), StepError>>) -> (r: DeployAction)
    ensures
        r@ == deploy_run(recipe.name@, context.config.host@, recipe.steps@, recipe.rollback_steps@, results_view(results@)),
{
    let ghost rs = results_view(results@);
    let hi: usize = if results.len() <= recipe.steps.len() { results.len() } else { recipe.steps.len() };
    let ghost drs = deploy_results(recipe.steps@, rs);
    assert(drs =~= rs.subrange(0, hi as int));
    match find_critical(results, 0, hi) {
        None => {
            assert(first_critical(drs) is None);
            let inner: StepsAction = steps_run_range(&recipe.steps, results, 0, hi);
            assert(inner@ == steps_run(recipe.steps@, drs));
            let mut notices: Vec<DeployNotice> = Vec::new();
            if results.len() == 0 {
                notices.push(DeployNotice::DeployStart { host: context.config.host.clone(), recipe: recipe.name.clone() });
            }
            let ghost start = notices@.map_values(|n: DeployNotice| n@);
            let ghost inner_notices = inner.notices@.map_values(|n: DeployNotice| n@);
            assert(start =~= (if rs.len() == 0 {
                seq![DeployNoticeView::DeployStart { host: context.config.host@, recipe: recipe.name@ }]
            } else {
                Seq::empty()
            }));
            let StepsAction { notices: mut inner_list, next } = inner;
            notices.append(&mut inner_list);
            assert(notices@.map_values(|n: DeployNotice| n@) =~= start + inner_notices);
            let r: DeployAction = match next {
                StepsNext::RunStep(i) => DeployAction { notices, next: DeployNext::RunDeployStep(i) },
                StepsNext::Finished(_) => DeployAction { notices, next: DeployNext::Finished(Ok(())) },
            };
            assert(r@.notices == deploy_run(recipe.name@, context.config.host@, recipe.steps@, recipe.rollback_steps@, rs).notices);
            assert(r@.next == deploy_run(recipe.name@, context.config.host@, recipe.steps@, recipe.rollback_steps@, rs).next);
            r
        },
        Some(c) => {
            proof { first_critical_is_first(drs); }
            assert(drs[c as int] == rs[c as int]);
            assert(first_critical(drs) == Some(c as int));
            let inner: DeployAction = rollback_range(recipe, context, results, c + 1);
            let mut notices: Vec<DeployNotice> = Vec::new();
            if c + 1 == results.len() {
                assert(rs[c as int] == step_result_view(results@[c as int]));
                let m: String = match &results[c] {
                    Err(e) => e.message(),
                    Ok(()) => String::new(),
                };
                notices.push(DeployNotice::CriticalError(m));
            }
            let ghost report = notices@.map_values(|n: DeployNotice| n@);
            let ghost inner_notices = inner.notices@.map_values(|n: DeployNotice| n@);
            let DeployAction { notices: mut inner_list, next } = inner;
            notices.append(&mut inner_list);
            assert(notices@.map_values(|n: DeployNotice| n@) =~= report + inner_notices);
            let r: DeployAction = DeployAction { notices, next };
            assert(r@.notices == deploy_run(recipe.name@, context.config.host@, recipe.steps@, recipe.rollback_steps@, rs).notices);
            assert(r@.next == deploy_run(recipe.name@, context.config.host@, recipe.steps@, recipe.rollback_steps@, rs).next);
            r
        },
    }
}

/// Running every step of a recipe whatever their results: each failure is
/// reported and the next step runs.
pub open spec fn executor_run(recipe: Seq<char>, host: Seq<char>, steps: Seq<Step>, rs: Seq<Result<(), StepErrorView>>) -> StepsActionView {
    let start = if rs.len() == 0 {
        seq![DeployNoticeView::DeployStart { host, recipe }]
    } else {
        Seq::empty()
    };
    let after = if 0 < rs.len() <= steps.len() {
        match rs.last() {
            Ok(()) => seq![DeployNoticeView::StepSucceeded(steps[rs.len() - 1].name())],
            Err(_) => seq![DeployNoticeView::StepFailed(failure_message(rs.last()))],
        }
    } else {
        Seq::empty()
    };
    if rs.len() < steps.len() {
        StepsActionView {
            notices: (start + after).push(DeployNoticeView::ExecutingStep(steps[rs.len() as int].name())),
            next: StepsNextView::RunStep(rs.len() as int),
        }
    } else {
        StepsActionView { notices: start + after, next: StepsNextView::Finished(Ok(())) }
    }
}

/// Runs a recipe's deployment steps one after the other, going on after any
/// failure.
pub struct RecipeExecutor;

impl RecipeExecutor {
    /// The next move, given the results of the steps run so far, as
    /// `executor_run` says.
    pub fn execute(recipe: &Recipe, context: &Context, results: &Vec<Result<(), StepError>>) -> (r: StepsAction)
        ensures
            r@ == executor_run(recipe.name@, context.config.host@, recipe.steps@, results_view(results@)),
    {
        let ghost rs = results_view(results@);
        let done: usize = results.len();
        let mut notices: Vec<DeployNotice> = Vec::new();
        if done == 0 {
            notices.push(DeployNotice::DeployStart { host: context.config.host.clone(), recipe: recipe.name.clone() });
        }
        if 0 < done && done <= recipe.steps.len() {
            assert(rs.last() == step_result_view(results@[done - 1]));
            match &results[done - 1] {
                Ok(()) => notices.push(DeployNotice::StepSucceeded(String::from_str(recipe.steps[done - 1].get_name()))),
                Err(e) => notices.push(DeployNotice::StepFailed(e.message())),
            }
        }
        let ghost expected = executor_run(recipe.name@, context.config.host@, recipe.steps@, rs);
        if done < recipe.steps.len() {
            notices.push(DeployNotice::ExecutingStep(String::from_str(recipe.steps[done].get_name())));
            assert(notices@.map_values(|n: DeployNotice| n@) =~= expected.notices);
            StepsAction { notices, next: StepsNext::RunStep(done) }
        } else {
            assert(notices@.map_values(|n: DeployNotice| n@) =~= expected.notices);
            StepsAction { notices, next: StepsNext::Finished(Ok(())) }
        }
    }
}

/// Law: a run goes on past failures that are not critical: while no step
/// has failed critically, the step after the last one reported runs next.
pub proof fn non_critical_failures_do_not_stop_a_run(steps: Seq<Step>, rs: Seq<Result<(), StepErrorView>>)
    requires
        forall|i: int| 0 <= i < rs.len() ==> !is_critical(rs[i]),
        rs.len() < steps.len(),
    ensures
        steps_run(steps, rs).next == StepsNextView::RunStep(rs.len() as int),
{
    first_critical_is_first(rs);
    if let Some(k) = first_critical(rs) {
        assert(!is_critical(rs[k]));
    }
}

/// Law: the first critical failure ends a run, with that failure's message,
/// whatever follows it.
pub proof fn first_critical_failure_ends_a_run(steps: Seq<Step>, rs: Seq<Result<(), StepErrorView>>, i: int)
    requires
        0 <= i < rs.len(),
        is_critical(rs[i]),
        forall|j: int| 0 <= j < i ==> !is_critical(rs[j]),
    ensures
        steps_run(steps, rs).next == StepsNextView::Finished(Err(critical_message(rs[i]))),
{
    first_critical_unique(rs, i);
}

/// Law: a deployment in which no step has failed critically runs its steps
/// in order, never a rollback step, and succeeds once every step has run.
pub proof fn deployment_without_critical_failure_succeeds(
    recipe: Seq<char>,
    host: Seq<char>,
    steps: Seq<Step>,
    rollback_steps: Seq<Step>,
    rs: Seq<Result<(), StepErrorView>>,
)
    requires
        rs.len() <= steps.len(),
        forall|i: int| 0 <= i < rs.len() ==> !is_critical(rs[i]),
    ensures
        deploy_run(recipe, host, steps, rollback_steps, rs).next == if rs.len() < steps.len() {
            DeployNext::RunDeployStep(rs.len() as usize)
        } else {
            DeployNext::Finished(Ok(()))
        },
{
    first_critical_is_first(rs);
    if let Some(k) = first_critical(rs) {
        assert(!is_critical(rs[k]));
    }
}

/// Law: once a deployment step fails critically, no further deployment step
/// runs: the failure is reported, the rollback begins, and from then on the
/// deployment does what the rollback of the later results does.
pub proof fn critical_failure_rolls_the_deployment_back(
    recipe: Seq<char>,
    host: Seq<char>,
    steps: Seq<Step>,
    rollback_steps: Seq<Step>,
    rs: Seq<Result<(), StepErrorView>>,
    c: int,
)
    requires
        0 <= c < rs.len(),
        c < steps.len(),
        is_critical(rs[c]),
        forall|j: int| 0 <= j < c ==> !is_critical(rs[j]),
    ensures
        deploy_run(recipe, host, steps, rollback_steps, rs).next
            == rollback_run(recipe, host, rollback_steps, rs.subrange(c + 1, rs.len() as int)).next,
        !(deploy_run(recipe, host, steps, rollback_steps, rs).next is RunDeployStep),
        rs.len() == c + 1 ==> deploy_run(recipe, host, steps, rollback_steps, rs).notices.subrange(0, 2) == seq![
            DeployNoticeView::CriticalError(critical_message(rs[c])),
            DeployNoticeView::RollbackStart { host, recipe },
        ],
{
    let drs = deploy_results(steps, rs);
    assert forall|j: int| 0 <= j <= c implies drs[j] == rs[j] by {}
    first_critical_unique(drs, c);
    let rrs = rs.subrange(c + 1, rs.len() as int);
    let inner = steps_run(rollback_steps, rrs);
    if rs.len() == c + 1 {
        let start = seq![DeployNoticeView::RollbackStart { host, recipe }];
        let report = seq![DeployNoticeView::CriticalError(critical_message(rs[c]))];
        let rb = rollback_run(recipe, host, rollback_steps, rrs);
        assert(rb.notices.subrange(0, 1) =~= start);
        assert((report + rb.notices).subrange(0, 2) =~= report + start);
    }
}

/// Law: a rollback succeeds once all its steps have run with no critical
/// failure, and fails as soon as one fails critically.
pub proof fn rollback_outcome(recipe: Seq<char>, host: Seq<char>, rollback_steps: Seq<Step>, rs: Seq<Result<(), StepErrorView>>)
    ensures
        (forall|i: int| 0 <= i < rs.len() ==> !is_critical(rs[i])) && rs.len() >= rollback_steps.len()
            ==> rollback_run(recipe, host, rollback_steps, rs).next == DeployNext::Finished(Ok(())),
        (exists|i: int| 0 <= i < rs.len() && is_critical(rs[i]))
            ==> rollback_run(recipe, host, rollback_steps, rs).next == DeployNext::Finished(Err(())),
{
    first_critical_is_first(rs);
    if let Some(k) = first_critical(rs) {
        assert(is_critical(rs[k]));
    } else {
        if exists|i: int| 0 <= i < rs.len() && is_critical(rs[i]) {
            let i = choose|i: int| 0 <= i < rs.len() && is_critical(rs[i]);
            assert(!is_critical(rs[i]));
        }
    }
}

/// Law: a rollback runs its steps one after the other: while no rollback
/// step has failed critically and some have not run yet, the step after the
/// last one reported runs next, and the rollback is announced before its
/// first step.
pub proof fn rollback_runs_every_step_in_order(
    recipe: Seq<char>,
    host: Seq<char>,
    rollback_steps: Seq<Step>,
    rs: Seq<Result<(), StepErrorView>>,
)
    requires
        forall|i: int| 0 <= i < rs.len() ==> !is_critical(rs[i]),
        rs.len() < rollback_steps.len(),
    ensures
        rollback_run(recipe, host, rollback_steps, rs).next == DeployNext::RunRollbackStep(rs.len() as usize),
        rs.len() == 0 ==> rollback_run(recipe, host, rollback_steps, rs).notices == seq![
            DeployNoticeView::RollbackStart { host, recipe },
            DeployNoticeView::ExecutingStep(rollback_steps[0].name()),
        ],
{
    non_critical_failures_do_not_stop_a_run(rollback_steps, rs);
    if rs.len() == 0 {
        assert(first_critical(rs) is None);
    }
}

/// Law: running every step whatever the results runs the step after the
/// last one reported until all have run, and then ends well; a failed step is
/// reported with its message, a successful one by its name.
pub proof fn executor_runs_every_step(recipe: Seq<char>, host: Seq<char>, steps: Seq<Step>, rs: Seq<Result<(), StepErrorView>>)
    ensures
        executor_run(recipe, host, steps, rs).next == if rs.len() < steps.len() {
            StepsNextView::RunStep(rs.len() as int)
        } else {
            StepsNextView::Finished(Ok(()))
        },
        rs.len() < steps.len() ==> executor_run(recipe, host, steps, rs).notices.last()
            == DeployNoticeView::ExecutingStep(steps[rs.len() as int].name()),
        0 < rs.len() <= steps.len() ==> executor_run(recipe, host, steps, rs).notices[0] == match rs.last() {
            Ok(()) => DeployNoticeView::StepSucceeded(steps[rs.len() - 1].name()),
            Err(StepErrorView::Critical(m)) => DeployNoticeView::StepFailed(m),
            Err(StepErrorView::NonCritical(m)) => DeployNoticeView::StepFailed(m),
        },
{
}

/// Law: while no step has failed critically, a run announces the step it
/// runs next by name, and reports the latest step's success by name or its
/// non-critical failure.
pub proof fn runs_report_each_step(steps: Seq<Step>, rs: Seq<Result<(), StepErrorView>>)
    requires
        forall|i: int| 0 <= i < rs.len() ==> !is_critical(rs[i]),
    ensures
        rs.len() < steps.len() ==> steps_run(steps, rs).notices.last()
            == DeployNoticeView::ExecutingStep(steps[rs.len() as int].name()),
        0 < rs.len() <= steps.len() ==> steps_run(steps, rs).notices[0] == match rs.last() {
            Ok(()) => DeployNoticeView::StepSucceeded(steps[rs.len() - 1].name()),
            Err(_) => DeployNoticeView::NonCriticalContinuing,
        },
        rs.len() >= steps.len() ==> steps_run(steps, rs).next == StepsNextView::Finished(Ok(())),
{
    first_critical_is_first(rs);
    if let Some(k) = first_critical(rs) {
        assert(!is_critical(rs[k]));
    }
    if rs.len() > 0 {
        assert(!is_critical(rs[rs.len() - 1]));
    }
}

} // verus!
