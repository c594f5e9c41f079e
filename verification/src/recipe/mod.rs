//! Recipes: the ordered steps of a deployment and of a rollback, and the
//! builder that assembles them.

use vstd::prelude::*;
use crate::config_steps::{StepConfig, StepPosition};
use crate::steps::Step;
use crate::steps::core_steps::{CleanUpReleases, InitStep, LinkDirs, LinkFiles, RawCmdStep, SymlinkCurrent};
use crate::steps::git::GitClone;
use crate::steps::rollback::{CanRollBack, RemoveCurrentRelease, SymlinkPreviousRelease};

pub mod deployer;

verus! {

/// A named list of deployment steps and the steps that undo a deployment.
#[derive(Debug, PartialEq, Eq)]
pub struct Recipe {
    pub name: String,
    pub steps: Vec<Step>,
    pub rollback_steps: Vec<Step>,
}

/// The names of a list of steps.
pub open spec fn step_names(steps: Seq<Step>) -> Seq<Seq<char>> {
    steps.map_values(|s: Step| s.name())
}

/// The position of the first step called `name`, if any.
pub open spec fn first_step_index(steps: Seq<Step>, name: Seq<char>) -> Option<int>
    decreases steps.len(),
{
    if steps.len() == 0 {
        None
    } else if steps[0].name() == name {
        Some(0)
    } else {
        match first_step_index(steps.drop_first(), name) {
            Some(i) => Some(i + 1),
            None => None,
        }
    }
}

/// `first_step_index` finds the first step of that name, and only a missing
/// name gives none.
pub proof fn first_step_index_is_first(steps: Seq<Step>, name: Seq<char>)
    ensures
        match first_step_index(steps, name) {
            Some(i) => 0 <= i < steps.len() && steps[i].name() == name
                && forall|j: int| 0 <= j < i ==> steps[j].name() != name,
            None => forall|j: int| 0 <= j < steps.len() ==> steps[j].name() != name,
        },
    decreases steps.len(),
{
    if steps.len() > 0 {
        first_step_index_is_first(steps.drop_first(), name);
        assert forall|j: int| 0 < j < steps.len() implies steps.drop_first()[j - 1] == #[trigger] steps[j] by {}
    }
}

impl Recipe {
    /// A builder for a new recipe.
    pub fn build() -> (b: RecipeBuilder)
        ensures
            b.recipe matches Some(r) && r.name@ == "Anonymous Recipe"@ && r.steps@.len() == 0
                && r.rollback_steps@.len() == 0,
    {
        RecipeBuilder { recipe: Some(Recipe::default()) }
    }

    /// The position of the first deployment step called `step_name`.
    pub fn get_step_index(&self, step_name: &str) -> (r: Option<usize>)
        ensures
            match first_step_index(self.steps@, step_name@) {
                Some(i) => r matches Some(k) && k as int == i,
                None => r is None,
            },
    {
        step_index(&self.steps, step_name)
    }
}

/// An empty recipe called "Anonymous Recipe".
impl Default for Recipe {
    fn default() -> (r: Recipe)
        ensures
            r.name@ == "Anonymous Recipe"@,
            r.steps@.len() == 0,
            r.rollback_steps@.len() == 0,
    {
        Recipe { name: String::from_str("Anonymous Recipe"), steps: Vec::new(), rollback_steps: Vec::new() }
    }
}

/// The position of the first step of `steps` called `name`.
fn step_index(steps: &Vec<Step>, name: &str) -> (r: Option<usize>)
    ensures
        match first_step_index(steps@, name@) {
            Some(i) => r matches Some(k) && k as int == i,
            None => r is None,
        },
{
    proof { first_step_index_is_first(steps@, name@); }
    let wanted: String = String::from_str(name);
    let mut index: usize = 0;
    while index < steps.len()
        invariant
            wanted@ == name@,
            index <= steps@.len(),
            forall|j: int| 0 <= j < index ==> steps@[j].name() != name@,
            match first_step_index(steps@, name@) {
                Some(i) => 0 <= i < steps@.len() && steps@[i].name() == name@
                    && forall|j: int| 0 <= j < i ==> steps@[j].name() != name@,
                None => forall|j: int| 0 <= j < steps@.len() ==> steps@[j].name() != name@,
            },
        decreases steps@.len() - index,
    {
        let n: String = String::from_str(steps[index].get_name());
        if n == wanted {
            return Some(index);
        }
        index = index + 1;
    }
    None
}

/// The core deployment steps, in order.
pub open spec fn core_steps() -> Seq<Step> {
    seq![
        Step::Init(InitStep),
        Step::GitClone(GitClone),
        Step::LinkFiles(LinkFiles),
        Step::LinkDirs(LinkDirs),
        Step::SymlinkCurrent(SymlinkCurrent),
        Step::CleanUpReleases(CleanUpReleases),
    ]
}

/// The core rollback steps, in order.
pub open spec fn core_rollback_steps() -> Seq<Step> {
    seq![
        Step::CanRollBack(CanRollBack),
        Step::RemoveCurrentRelease(RemoveCurrentRelease),
        Step::SymlinkPreviousRelease(SymlinkPreviousRelease),
    ]
}

/// `steps` with `extra` inserted right after the first step called `name`.
pub open spec fn insert_after(steps: Seq<Step>, name: Seq<char>, extra: Step) -> Seq<Step> {
    steps.insert(first_step_index(steps, name)->Some_0 + 1, extra)
}

/// `steps` with `extra` inserted right before the first step called `name`.
pub open spec fn insert_before(steps: Seq<Step>, name: Seq<char>, extra: Step) -> Seq<Step> {
    steps.insert(first_step_index(steps, name)->Some_0, extra)
}

/// Where a custom step lands among `steps`.
pub open spec fn config_step_position(steps: Seq<Step>, config: crate::config_steps::StepConfigView) -> int {
    match config.position {
        StepPosition::Before => first_step_index(steps, config.ref_step)->Some_0,
        StepPosition::After => first_step_index(steps, config.ref_step)->Some_0 + 1,
    }
}

/// Assembles a recipe. Once `finish` has handed the recipe out, the other
/// methods change nothing.
pub struct RecipeBuilder {
    pub recipe: Option<Recipe>,
}

impl RecipeBuilder {
    /// Sets the recipe's name.
    pub fn name(&mut self, name: &str) -> (r: &mut Self)
        ensures
            match old(self).recipe {
                Some(old_r) => r.recipe matches Some(new_r) && new_r.name@ == name@
                    && new_r.steps == old_r.steps && new_r.rollback_steps == old_r.rollback_steps,
                None => r.recipe is None,
            },
            *final(self) == *final(r),
    {
        if let Some(recipe) = &mut self.recipe {
            recipe.name = String::from_str(name);
        }
        self
    }

    /// Appends the core deployment steps.
    pub fn with_core_steps(&mut self) -> (r: &mut Self)
        ensures
            match old(self).recipe {
                Some(old_r) => r.recipe matches Some(new_r) && new_r.name == old_r.name
                    && new_r.steps@ == old_r.steps@ + core_steps()
                    && new_r.rollback_steps == old_r.rollback_steps,
                None => r.recipe is None,
            },
            *final(self) == *final(r),
    {
        if let Some(recipe) = &mut self.recipe {
            recipe.steps.push(Step::Init(InitStep));
            recipe.steps.push(Step::GitClone(GitClone));
            recipe.steps.push(Step::LinkFiles(LinkFiles));
            recipe.steps.push(Step::LinkDirs(LinkDirs));
            recipe.steps.push(Step::SymlinkCurrent(SymlinkCurrent));
            recipe.steps.push(Step::CleanUpReleases(CleanUpReleases));
        }
        proof {
            if self.recipe is Some {
                assert(self.recipe->Some_0.steps@ =~= old(self).recipe->Some_0.steps@ + core_steps());
            }
        }
        self
    }

    /// Appends the core rollback steps.
    pub fn with_core_rollback_steps(&mut self) -> (r: &mut Self)
        ensures
            match old(self).recipe {
                Some(old_r) => r.recipe matches Some(new_r) && new_r.name == old_r.name
                    && new_r.steps == old_r.steps
                    && new_r.rollback_steps@ == old_r.rollback_steps@ + core_rollback_steps(),
                None => r.recipe is None,
            },
            *final(self) == *final(r),
    {
        if let Some(recipe) = &mut self.recipe {
            recipe.rollback_steps.push(Step::CanRollBack(CanRollBack));
            recipe.rollback_steps.push(Step::RemoveCurrentRelease(RemoveCurrentRelease));
            recipe.rollback_steps.push(Step::SymlinkPreviousRelease(SymlinkPreviousRelease));
        }
        proof {
            if self.recipe is Some {
                assert(self.recipe->Some_0.rollback_steps@ =~= old(self).recipe->Some_0.rollback_steps@ + core_rollback_steps());
            }
        }
        self
    }

    /// Whether a step may be placed relative to the step called
    /// `subject_name`: the recipe has such a step (or has been handed out,
    /// and nothing will be inserted).
    pub fn accepts_reference(&self, subject_name: &str) -> (b: bool)
        ensures
            b == match self.recipe {
                Some(r) => first_step_index(r.steps@, subject_name@) is Some,
                None => true,
            },
    {
        match &self.recipe {
            Some(r) => r.get_step_index(subject_name).is_some(),
            None => true,
        }
    }

    /// Inserts `extra_step` right after the first step called `subject_name`.
    /// The recipe must hold a step of that name.
    pub fn with_step_after(&mut self, subject_name: &str, extra_step: Step) -> (r: &mut Self)
        requires
            old(self).recipe matches Some(rc) ==> first_step_index(rc.steps@, subject_name@) is Some,
        ensures
            match old(self).recipe {
                Some(old_r) => r.recipe matches Some(new_r) && new_r.name == old_r.name
                    && new_r.steps@ == insert_after(old_r.steps@, subject_name@, extra_step)
                    && new_r.rollback_steps == old_r.rollback_steps,
                None => r.recipe is None,
            },
            *final(self) == *final(r),
    {
        if let Some(recipe) = &mut self.recipe {
            proof { first_step_index_is_first(recipe.steps@, subject_name@); }
            let step_index: usize = recipe.get_step_index(subject_name).unwrap();
            assert(step_index as int == first_step_index(recipe.steps@, subject_name@)->Some_0);
            assert(step_index < recipe.steps.len());
            recipe.steps.insert(step_index + 1, extra_step);
        }
        self
    }

    /// Inserts `extra_step` right before the first step called
    /// `subject_name`. The recipe must hold a step of that name.
    pub fn with_step_before(&mut self, subject_name: &str, extra_step: Step) -> (r: &mut Self)
        requires
            old(self).recipe matches Some(rc) ==> first_step_index(rc.steps@, subject_name@) is Some,
        ensures
            match old(self).recipe {
                Some(old_r) => r.recipe matches Some(new_r) && new_r.name == old_r.name
                    && new_r.steps@ == insert_before(old_r.steps@, subject_name@, extra_step)
                    && new_r.rollback_steps == old_r.rollback_steps,
                None => r.recipe is None,
            },
            *final(self) == *final(r),
    {
        if let Some(recipe) = &mut self.recipe {
            proof { first_step_index_is_first(recipe.steps@, subject_name@); }
            let step_index: usize = recipe.get_step_index(subject_name).unwrap();
            assert(step_index as int == first_step_index(recipe.steps@, subject_name@)->Some_0);
            recipe.steps.insert(step_index, extra_step);
        }
        self
    }

    /// Places the command of a custom step before or after the step it names.
    /// The recipe must hold that step.
    pub fn with_config_step(&mut self, config: StepConfig) -> (r: &mut Self)
        requires
            old(self).recipe matches Some(rc) ==> first_step_index(rc.steps@, config.ref_step@) is Some,
        ensures
            match old(self).recipe {
                Some(old_r) => r.recipe matches Some(new_r) && new_r.name == old_r.name
                    && new_r.rollback_steps == old_r.rollback_steps
                    && new_r.steps@.len() == old_r.steps@.len() + 1
                    && new_r.steps@.remove(config_step_position(old_r.steps@, config@)) == old_r.steps@
                    && (new_r.steps@[config_step_position(old_r.steps@, config@)] matches Step::RawCmd(raw)
                    && raw.name@ == config.name@ && raw.raw_cmd@ == config.comand@),
                None => r.recipe is None,
            },
            *final(self) == *final(r),
    {
        let position: StepPosition = config.position;
        let reference: String = config.ref_step.clone();
        let extra: Step = Step::RawCmd(RawCmdStep::from(config));
        proof {
            if old(self).recipe is Some {
                first_step_index_is_first(old(self).recipe->Some_0.steps@, config.ref_step@);
            }
        }
        let r: &mut Self = match position {
            StepPosition::Before => self.with_step_before(reference.as_str(), extra),
            StepPosition::After => self.with_step_after(reference.as_str(), extra),
        };
        proof {
            if old(self).recipe is Some {
                let p = config_step_position(old(self).recipe->Some_0.steps@, config@);
                assert(r.recipe->Some_0.steps@.remove(p) =~= old(self).recipe->Some_0.steps@);
            }
        }
        r
    }

    /// Hands the recipe out; the builder must still hold it, so it can be
    /// called once.
    pub fn finish(&mut self) -> (r: Recipe)
        requires
            old(self).recipe is Some,
        ensures
            r == old(self).recipe->Some_0,
            final(self).recipe is None,
    {
        self.recipe.take().unwrap()
    }
}

/// Law: a step placed after another lands right after the first step of
/// that name, a step placed before it lands right in front of it, and the
/// other steps keep their order.
pub proof fn placed_steps_land_next_to_their_reference(steps: Seq<Step>, name: Seq<char>, extra: Step)
    requires
        first_step_index(steps, name) is Some,
    ensures
        ({
            let i = first_step_index(steps, name)->Some_0;
            &&& steps[i].name() == name
            &&& insert_after(steps, name, extra).len() == steps.len() + 1
            &&& insert_after(steps, name, extra)[i] == steps[i]
            &&& insert_after(steps, name, extra)[i + 1] == extra
            &&& insert_after(steps, name, extra).remove(i + 1) == steps
            &&& insert_before(steps, name, extra).len() == steps.len() + 1
            &&& insert_before(steps, name, extra)[i] == extra
            &&& insert_before(steps, name, extra)[i + 1] == steps[i]
            &&& insert_before(steps, name, extra).remove(i) == steps
        }),
{
    first_step_index_is_first(steps, name);
    let i = first_step_index(steps, name)->Some_0;
    assert(insert_after(steps, name, extra).remove(i + 1) =~= steps);
    assert(insert_before(steps, name, extra).remove(i) =~= steps);
}

/// Law: the core deployment steps create the release, clone the repository,
/// link the shared files, then the shared directories, point `current` at
/// the release and clean up old releases, in that order; the core rollback
/// steps check that there is a release to go back to, remove the newest
/// release and point `current` at the previous one.
pub proof fn core_steps_in_order()
    ensures
        step_names(core_steps()) == seq![
            "core:init"@,
            "git:clone"@,
            "core:link:files"@,
            "core:link:directories"@,
            "core:link:current"@,
            "core:cleanup:releases"@,
        ],
        step_names(core_rollback_steps()) == seq![
            "rollback:check"@,
            "rollback:rm:latest"@,
            "rollback:symlink:previous"@,
        ],
{
    assert(step_names(core_steps()) =~= seq![
        "core:init"@,
        "git:clone"@,
        "core:link:files"@,
        "core:link:directories"@,
        "core:link:current"@,
        "core:cleanup:releases"@,
    ]);
    assert(step_names(core_rollback_steps()) =~= seq![
        "rollback:check"@,
        "rollback:rm:latest"@,
        "rollback:symlink:previous"@,
    ]);
}

/// Law: a custom step goes where its definition says: a step to run before
/// its reference is inserted at the position of the first step of that name,
/// so that this step follows it; one to run after is inserted right behind
/// that step.
pub proof fn custom_steps_land_on_their_side(steps: Seq<Step>, c: crate::config_steps::StepConfigView)
    requires
        first_step_index(steps, c.ref_step) is Some,
    ensures
        ({
            let p = config_step_position(steps, c);
            &&& c.position == StepPosition::Before ==> 0 <= p < steps.len() && steps[p].name() == c.ref_step
                && forall|j: int| 0 <= j < p ==> steps[j].name() != c.ref_step
            &&& c.position == StepPosition::After ==> 1 <= p <= steps.len() && steps[p - 1].name() == c.ref_step
                && forall|j: int| 0 <= j < p - 1 ==> steps[j].name() != c.ref_step
        }),
{
    first_step_index_is_first(steps, c.ref_step);
}

} // verus!
