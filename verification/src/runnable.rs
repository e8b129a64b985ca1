//! The shape of a task of the monitor.

use vstd::prelude::*;

verus! {

/// A task that works on shared state of type `C`. The caller runs the loop:
/// it waits, reads or sends as the last action asked, and hands the outcome
/// to `run` as the next event. `run` itself never waits: it decides, under
/// the caller's lock, what happens to the state and what to do next.
pub trait Runnable<C> {
    /// What the caller reports to the task.
    type Event;

    /// What the task asks the caller to do next.
    type Action;

    /// One step of the task.
    fn run(&mut self, container: &mut C, event: Self::Event) -> Self::Action;
}

} // verus!
