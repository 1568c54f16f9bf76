//! Stopping the tasks of a hash chain.

use crate::script::{must_step, try_step, Failure, Script, Step};
use vstd::prelude::*;

verus! {

/// How long the tasks are given to stop, in milliseconds.
pub const HALT_DELAY_MS: u64 = 2000;

/// An operation of the task that stops the others.
#[derive(Clone, Copy, Debug, PartialEq, Eq, Structural)]
pub enum StopStep {
    /// Broadcast the halt condition.
    Broadcast,
    /// Wait for this many milliseconds.
    Delay(u64),
}

/// How the tasks of a chain are stopped.
pub open spec fn stop_steps() -> Seq<Step<StopStep>> {
    seq![
        must_step(StopStep::Broadcast, "restart broadcasting failed"),
        try_step(StopStep::Delay(HALT_DELAY_MS)),
    ]
}

/// The task that stops the others.
pub fn do_stop() -> (r: Script<StopStep>)
    ensures
        r.fresh(stop_steps(), None),
        r.wf(),
{
    let mut steps: Vec<Step<StopStep>> = Vec::new();
    steps.push(
        Step {
            action: StopStep::Broadcast,
            failure: Failure::Panic("restart broadcasting failed"),
        },
    );
    steps.push(Step { action: StopStep::Delay(HALT_DELAY_MS), failure: Failure::Propagate });
    assert(steps@ =~= stop_steps());
    Script::once(steps)
}

/// Whether what was received of the halt condition makes a task stop: the
/// condition itself, or the loss of everyone who could have sent it.
pub fn is_halt(received: Option<bool>) -> (r: bool)
    ensures
        r == (received != Some(false)),
{
    match received {
        None => true,
        Some(halt) => halt,
    }
}

/// Only a broadcast that fails is fatal to stopping.
pub proof fn law_failures_of_stopping(i: int)
    requires
        0 <= i < stop_steps().len(),
    ensures
        stop_steps()[i].failure == match stop_steps()[i].action {
            StopStep::Broadcast => Failure::Panic("restart broadcasting failed"),
            StopStep::Delay(_) => Failure::Propagate,
        },
        stop_steps().len() == 2,
{
}

} // verus!
