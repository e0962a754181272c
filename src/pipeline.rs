//! The build orchestrator: the stages of a build in their fixed order, each
//! gated by the success of the one before, with no way back and nothing run
//! after a failure.
use vstd::prelude::*;

use crate::error::BuildError;

verus! {

/// The stages of a build, in order.
#[derive(Clone, Copy, Debug, PartialEq, Eq, Structural)]
pub enum Stage {
    ConfigParsed,
    ToolchainResolved,
    LayoutCreated,
    DependenciesFetched,
    HeadersProjected,
    DependenciesCompiled,
    ProjectCompiled,
    Linked,
    Done,
}

/// The position of a stage in the order.
pub open spec fn rank(s: Stage) -> nat {
    match s {
        Stage::ConfigParsed => 0,
        Stage::ToolchainResolved => 1,
        Stage::LayoutCreated => 2,
        Stage::DependenciesFetched => 3,
        Stage::HeadersProjected => 4,
        Stage::DependenciesCompiled => 5,
        Stage::ProjectCompiled => 6,
        Stage::Linked => 7,
        Stage::Done => 8,
    }
}

/// Where a build stands.
pub enum Pipeline {
    /// No stage has run.
    Started,
    /// `Stage` is the last stage reached.
    Reached(Stage),
    /// The stage that was running failed, with the cause.
    Failed { stage: Stage, error: BuildError },
}

/// The stage that runs next, if any.
pub open spec fn upcoming(p: Pipeline) -> Option<Stage> {
    match p {
        Pipeline::Started => Some(Stage::ConfigParsed),
        Pipeline::Reached(s) => match s {
            Stage::ConfigParsed => Some(Stage::ToolchainResolved),
            Stage::ToolchainResolved => Some(Stage::LayoutCreated),
            Stage::LayoutCreated => Some(Stage::DependenciesFetched),
            Stage::DependenciesFetched => Some(Stage::HeadersProjected),
            Stage::HeadersProjected => Some(Stage::DependenciesCompiled),
            Stage::DependenciesCompiled => Some(Stage::ProjectCompiled),
            Stage::ProjectCompiled => Some(Stage::Linked),
            Stage::Linked => Some(Stage::Done),
            Stage::Done => None,
        },
        Pipeline::Failed { .. } => None,
    }
}

/// The state after the upcoming stage reports `outcome`.
pub open spec fn after(p: Pipeline, outcome: Result<(), BuildError>) -> Pipeline {
    match upcoming(p) {
        Some(s) => match outcome {
            Ok(()) => Pipeline::Reached(s),
            Err(e) => Pipeline::Failed { stage: s, error: e },
        },
        None => p,
    }
}

impl Pipeline {
    pub fn new() -> (r: Pipeline)
        ensures
            r == Pipeline::Started,
    {
        Pipeline::Started
    }

    /// The stage that runs next; none once the build is done or has failed.
    pub fn upcoming(&self) -> (r: Option<Stage>)
        ensures
            r == upcoming(*self),
    {
        match self {
            Pipeline::Started => Some(Stage::ConfigParsed),
            Pipeline::Reached(s) => match s {
                Stage::ConfigParsed => Some(Stage::ToolchainResolved),
                Stage::ToolchainResolved => Some(Stage::LayoutCreated),
                Stage::LayoutCreated => Some(Stage::DependenciesFetched),
                Stage::DependenciesFetched => Some(Stage::HeadersProjected),
                Stage::HeadersProjected => Some(Stage::DependenciesCompiled),
                Stage::DependenciesCompiled => Some(Stage::ProjectCompiled),
                Stage::ProjectCompiled => Some(Stage::Linked),
                Stage::Linked => Some(Stage::Done),
                Stage::Done => None,
            },
            Pipeline::Failed { .. } => None,
        }
    }

    /// Whether `stage` may run now: it is the upcoming one.
    pub fn may_run(&self, stage: Stage) -> (r: bool)
        ensures
            r == (upcoming(*self) == Some(stage)),
    {
        match self.upcoming() {
            Some(s) => s == stage,
            None => false,
        }
    }

    /// Records the outcome of the upcoming stage: success moves on to it, a
    /// failure ends the build there. A finished or failed build stays as it is.
    pub fn advance(self, outcome: Result<(), BuildError>) -> (r: Pipeline)
        ensures
            r == after(self, outcome),
    {
        match self.upcoming() {
            Some(s) => match outcome {
                Ok(()) => Pipeline::Reached(s),
                Err(e) => Pipeline::Failed { stage: s, error: e },
            },
            None => self,
        }
    }

    /// Whether the build has completed every stage.
    pub fn is_done(&self) -> (r: bool)
        ensures
            r == (*self == Pipeline::Reached(Stage::Done)),
    {
        match self {
            Pipeline::Reached(Stage::Done) => true,
            _ => false,
        }
    }
}

/// Stages run in order and a failure is final: the stage that may run after
/// a success is the next one in the order, and once a stage fails no stage
/// runs again, whatever is reported.
pub proof fn lemma_stages_in_order(p: Pipeline, outcome: Result<(), BuildError>)
    ensures
        upcoming(p) matches Some(s) ==> (upcoming(after(p, Ok(()))) matches Some(t) ==> rank(t)
            == rank(s) + 1),
        after(p, outcome) is Failed ==> upcoming(after(p, outcome)) is None && after(
            after(p, outcome),
            outcome,
        ) == after(p, outcome),
{
}

/// A stage runs only once every earlier stage has succeeded: it is upcoming
/// only when the build has reached the stage just before it.
pub proof fn lemma_stage_gated(p: Pipeline, s: Stage)
    requires
        upcoming(p) == Some(s),
        rank(s) > 0,
    ensures
        p matches Pipeline::Reached(prev) && rank(prev) + 1 == rank(s),
{
}

} // verus!
