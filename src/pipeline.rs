//! The order of a run's stages, and how a failure ends it.

use crate::compile::{is_windows, is_windows_target};
use vstd::prelude::*;

verus! {

/// One stage of a run.
#[derive(Debug, Clone, Copy, PartialEq, Eq, Structural)]
pub enum Stage {
    /// Look for the compiler on the search path.
    CheckPrerequisites,
    /// Open or clone the repository and check out the version.
    ResolveRevision,
    /// Run the compiler.
    Compile,
    /// Fetch and verify the geo databases.
    FetchGeoData,
    /// Fetch the driver archive and extract the driver and its license.
    FetchDriver,
    /// Write the archive and copy it to the output directory.
    Package,
}

/// The stages of a run, in order; the driver only for Windows.
pub open spec fn stage_plan(windows: bool) -> Seq<Stage> {
    if windows {
        seq![
            Stage::CheckPrerequisites,
            Stage::ResolveRevision,
            Stage::Compile,
            Stage::FetchGeoData,
            Stage::FetchDriver,
            Stage::Package,
        ]
    } else {
        seq![
            Stage::CheckPrerequisites,
            Stage::ResolveRevision,
            Stage::Compile,
            Stage::FetchGeoData,
            Stage::Package,
        ]
    }
}

/// Where a run stands.
pub struct RunState {
    pub stages: Seq<Stage>,
    /// How many stages have succeeded.
    pub done: nat,
    pub failed: bool,
}

/// A run that has not started.
pub open spec fn start(windows: bool) -> RunState {
    RunState { stages: stage_plan(windows), done: 0, failed: false }
}

/// The stage to run next; none once a stage failed or all succeeded.
pub open spec fn current_spec(s: RunState) -> Option<Stage> {
    if s.failed || s.done >= s.stages.len() {
        None
    } else {
        Some(s.stages[s.done as int])
    }
}

/// The state after the current stage ended, well or not.
pub open spec fn step(s: RunState, succeeded: bool) -> RunState {
    if current_spec(s) is None {
        s
    } else if succeeded {
        RunState { done: s.done + 1, ..s }
    } else {
        RunState { failed: true, ..s }
    }
}

/// The state after a sequence of stage outcomes.
pub open spec fn run(s: RunState, outcomes: Seq<bool>) -> RunState
    decreases outcomes.len(),
{
    if outcomes.len() == 0 {
        s
    } else {
        run(step(s, outcomes[0]), outcomes.drop_first())
    }
}

/// A run of the build-acquire-package stages: the caller performs the
/// current stage and reports whether it succeeded.
#[derive(Debug)]
pub struct Pipeline {
    stages: Vec<Stage>,
    done: usize,
    failed: bool,
}

impl View for Pipeline {
    type V = RunState;

    closed spec fn view(&self) -> RunState {
        RunState { stages: self.stages@, done: self.done as nat, failed: self.failed }
    }
}

impl Pipeline {
    /// A run for a Go operating system; Windows adds the driver stage.
    pub fn new(goos: &str) -> (r: Pipeline)
        ensures
            r@ == start(is_windows(goos@)),
    {
        let windows = is_windows_target(goos);
        let mut stages: Vec<Stage> = Vec::new();
        stages.push(Stage::CheckPrerequisites);
        stages.push(Stage::ResolveRevision);
        stages.push(Stage::Compile);
        stages.push(Stage::FetchGeoData);
        if windows {
            stages.push(Stage::FetchDriver);
        }
        stages.push(Stage::Package);
        let r = Pipeline { stages, done: 0, failed: false };
        assert(r@.stages =~= stage_plan(windows));
        r
    }

    /// The stage to run now.
    pub fn current(&self) -> (r: Option<Stage>)
        ensures
            r == current_spec(self@),
    {
        if self.failed || self.done >= self.stages.len() {
            None
        } else {
            Some(self.stages[self.done])
        }
    }

    /// Records how the current stage ended. A failure ends the run.
    pub fn advance(&mut self, succeeded: bool)
        ensures
            final(self)@ == step(old(self)@, succeeded),
    {
        if self.failed || self.done >= self.stages.len() {
        } else if succeeded {
            self.done = self.done + 1;
        } else {
            self.failed = true;
        }
    }

    pub fn has_failed(&self) -> (r: bool)
        ensures
            r == self@.failed,
    {
        self.failed
    }

    /// Whether every stage succeeded.
    pub fn is_finished(&self) -> (r: bool)
        ensures
            r == (!self@.failed && self@.done >= self@.stages.len()),
    {
        !self.failed && self.done >= self.stages.len()
    }
}

/// A failed run stays as it is, whatever is reported after.
pub proof fn lemma_failure_is_final(s: RunState, outcomes: Seq<bool>)
    requires
        s.failed,
    ensures
        run(s, outcomes) == s,
        current_spec(run(s, outcomes)) is None,
    decreases outcomes.len(),
{
    if outcomes.len() > 0 {
        lemma_failure_is_final(step(s, outcomes[0]), outcomes.drop_first());
    }
}

/// The driver stage belongs to Windows runs, and only to them; every run
/// ends with packaging.
pub proof fn lemma_driver_only_on_windows(windows: bool)
    ensures
        stage_plan(windows).contains(Stage::FetchDriver) <==> windows,
        stage_plan(windows).last() == Stage::Package,
{
    if windows {
        assert(stage_plan(windows)[4] == Stage::FetchDriver);
    } else {
        assert forall|i: int| 0 <= i < stage_plan(windows).len() implies stage_plan(windows)[i]
            != Stage::FetchDriver by {}
    }
}

/// A version that cannot be resolved ends the run before the compiler: the
/// run fails at the revision stage, and no stage comes after, whatever is
/// reported later.
pub proof fn lemma_unresolved_revision_never_compiles(windows: bool, later: Seq<bool>)
    ensures
        current_spec(step(start(windows), true)) == Some(Stage::ResolveRevision),
        step(step(start(windows), true), false).failed,
        forall|k: int|
            0 <= k <= later.len() ==> #[trigger] current_spec(
                run(step(step(start(windows), true), false), later.take(k)),
            ) is None,
{
    let s = step(step(start(windows), true), false);
    assert forall|k: int| 0 <= k <= later.len() implies #[trigger] current_spec(
        run(s, later.take(k)),
    ) is None by {
        lemma_failure_is_final(s, later.take(k));
    }
}

} // verus!
