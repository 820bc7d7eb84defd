//! Verified core of a Flint test harness for the SteelMC server.
//!
//! The harness runs Flint's automated block and item tests against a real
//! SteelMC world kept in memory. This crate holds its logic: the one-time
//! set-up of the process, the fixed settings of the test server and of each
//! test world, which chunk holds a block, the tick counter of a test world,
//! the retained chunk requests that keep chunks loaded, and the decisions taken
//! while a chunk request is driven to completion, and the glob that selects
//! tests by name.
use vstd::prelude::*;

pub mod adapter;
pub mod chunk;
pub mod drive;
pub mod select;
pub mod setup;
pub mod world;

pub use adapter::{ServerInfo, SteelAdapter};
pub use setup::{InitProgress, InitStep, StepAction, StepState};
pub use world::{SetBlockPlan, TestWorldState};

verus! {

/// What to do next to initialise the harness.
#[derive(Clone, Copy, Debug, PartialEq, Eq, Structural)]
pub enum InitAction {
    /// Run this step: `start` it, perform it, then `finish` it.
    Run(InitStep),
    /// This step failed part-way earlier and is not retried.
    Poisoned(InitStep),
    /// Every step has finished.
    Complete,
}

/// The order the steps run in: configuration, registry, behaviours (which
/// need the registry), runtime.
pub open spec fn init_order() -> Seq<InitStep> {
    seq![InitStep::Config, InitStep::Registry, InitStep::Behaviors, InitStep::Runtime]
}

/// The action for the first step of `init_order` from index `i` on that has
/// not finished, or `Complete` when all of them have.
pub open spec fn next_init_action(p: InitProgress, i: int) -> InitAction
    decreases 4 - i,
{
    if i >= 4 || i < 0 {
        InitAction::Complete
    } else {
        let step = init_order()[i];
        match crate::setup::spec_step_action(step, p.state(step)) {
            StepAction::Skip => next_init_action(p, i + 1),
            StepAction::Run => InitAction::Run(step),
            StepAction::Poisoned => InitAction::Poisoned(step),
        }
    }
}

/// Initialises the harness one step at a time: the next step to run, in the
/// order of `init_order`, skipping the steps that have finished; a step that
/// failed part-way is run again when it is retried and reported poisoned
/// otherwise. Once every step has finished it answers `Complete`, so that
/// initialising again does nothing.
pub fn init(progress: &InitProgress) -> (a: InitAction)
    ensures
        a == next_init_action(*progress, 0),
        a == InitAction::Complete <==> progress.all_done(),
        a matches InitAction::Run(s) ==> {
            &&& progress.state(s) == StepState::Pending
                || (progress.state(s) == StepState::Started && s == InitStep::Runtime)
            &&& s != InitStep::Config ==> progress.done(InitStep::Config)
            &&& (s == InitStep::Behaviors || s == InitStep::Runtime) ==> progress.done(InitStep::Registry)
            &&& s == InitStep::Runtime ==> progress.done(InitStep::Behaviors)
        },
        a matches InitAction::Poisoned(s) ==> {
            &&& progress.state(s) == StepState::Started && s != InitStep::Runtime
            &&& s != InitStep::Config ==> progress.done(InitStep::Config)
            &&& (s == InitStep::Behaviors || s == InitStep::Runtime) ==> progress.done(InitStep::Registry)
            &&& s == InitStep::Runtime ==> progress.done(InitStep::Behaviors)
        },
{
    proof {
        lemma_next_init_action(*progress);
    }
    let order = [InitStep::Config, InitStep::Registry, InitStep::Behaviors, InitStep::Runtime];
    assert(order@ == init_order());
    let mut i: usize = 0;
    while i < 4
        invariant
            0 <= i <= 4,
            order@ == init_order(),
            next_init_action(*progress, 0) == next_init_action(*progress, i as int),
        decreases 4 - i,
    {
        let step = order[i];
        match progress.step_action(step) {
            StepAction::Run => {
                proof {
                    lemma_next_init_action(*progress);
                }
                return InitAction::Run(step);
            },
            StepAction::Poisoned => {
                proof {
                    lemma_next_init_action(*progress);
                }
                return InitAction::Poisoned(step);
            },
            StepAction::Skip => {},
        }
        i = i + 1;
    }
    InitAction::Complete
}

/// What the next set-up action is, in terms of the progress alone: `Complete`
/// exactly when every step has finished; otherwise the first unfinished step
/// in the order configuration, registry, behaviours, runtime, which is run
/// when it has not started (or is the runtime, which is retried) and is
/// poisoned when it is a one-shot step that failed part-way.
pub proof fn lemma_next_init_action(p: InitProgress)
    ensures
        next_init_action(p, 0) == InitAction::Complete <==> p.all_done(),
        next_init_action(p, 0) matches InitAction::Run(s) ==> {
            &&& p.state(s) == StepState::Pending || (p.state(s) == StepState::Started && s == InitStep::Runtime)
            &&& s != InitStep::Config ==> p.done(InitStep::Config)
            &&& (s == InitStep::Behaviors || s == InitStep::Runtime) ==> p.done(InitStep::Registry)
            &&& s == InitStep::Runtime ==> p.done(InitStep::Behaviors)
        },
        next_init_action(p, 0) matches InitAction::Poisoned(s) ==> {
            &&& p.state(s) == StepState::Started && s != InitStep::Runtime
            &&& s != InitStep::Config ==> p.done(InitStep::Config)
            &&& (s == InitStep::Behaviors || s == InitStep::Runtime) ==> p.done(InitStep::Registry)
            &&& s == InitStep::Runtime ==> p.done(InitStep::Behaviors)
        },
{
    assert(init_order()[0] == InitStep::Config);
    assert(init_order()[1] == InitStep::Registry);
    assert(init_order()[2] == InitStep::Behaviors);
    assert(init_order()[3] == InitStep::Runtime);
    assert(next_init_action(p, 4) == InitAction::Complete);
    let a3 = next_init_action(p, 3);
    let a2 = next_init_action(p, 2);
    let a1 = next_init_action(p, 1);
    let a0 = next_init_action(p, 0);
}

/// Once every step has finished, initialising again does nothing.
pub proof fn lemma_init_idempotent(p: InitProgress)
    requires
        p.all_done(),
    ensures
        next_init_action(p, 0) == InitAction::Complete,
{
    assert(init_order()[0] == InitStep::Config);
    assert(init_order()[1] == InitStep::Registry);
    assert(init_order()[2] == InitStep::Behaviors);
    assert(init_order()[3] == InitStep::Runtime);
    assert(next_init_action(p, 4) == InitAction::Complete);
    assert(next_init_action(p, 3) == InitAction::Complete);
    assert(next_init_action(p, 2) == InitAction::Complete);
    assert(next_init_action(p, 1) == InitAction::Complete);
}

/// A step is only run once every step before it in `init_order` has
/// finished; in particular the behaviours only after the registry.
pub proof fn lemma_init_in_order(p: InitProgress, i: int, j: int)
    requires
        0 <= j < i < 4,
        next_init_action(p, 0) == InitAction::Run(init_order()[i]),
    ensures
        p.done(init_order()[j]),
{
    lemma_next_action_after(p, 0, i, j);
}

proof fn lemma_next_action_after(p: InitProgress, k: int, i: int, j: int)
    requires
        0 <= k <= j < i < 4,
        next_init_action(p, k) == InitAction::Run(init_order()[i]),
    ensures
        p.done(init_order()[j]),
    decreases j - k,
{
    let step = init_order()[k];
    if crate::setup::spec_step_action(step, p.state(step)) != StepAction::Skip {
        assert(init_order()[k] != init_order()[i]);
    } else if k < j {
        lemma_next_action_after(p, k + 1, i, j);
    }
}

} // verus!
