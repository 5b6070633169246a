//! A routine is a callback a task owns and runs on its own schedule; each
//! task defines the specific mannerism of its routines.
use vstd::prelude::*;

verus! {

/// Implemented by tasks that accept user-supplied routines.  If a routine
/// needs to modify data, the changes are sent back through the routine's
/// output and merged with the main data by the task.
pub trait TaskRoutine {
    /// The callback type the implementer accepts.
    type RoutineFn: Fn(Self::RoutineInput) -> Self::RoutineOutput;

    type RoutineOutput;

    type RoutineInput;

    /// For users who know what is implementing the trait: hand a routine
    /// over for later runs.
    fn add_routine(&mut self, routine: Self::RoutineFn);

    /// For users who just want the implementation to run everything it was
    /// handed.
    fn run_routines(&mut self);
}

} // verus!
