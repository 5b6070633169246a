//! A cooperative task-orchestration core: an update manager that owns a list
//! of task containers, ticks them in registration order, supervises reload
//! and shutdown, and a named rendezvous registry through which any two tasks
//! can link a private bidirectional channel.
pub mod asset;
pub mod surface;
pub mod task_routine;
pub mod update_manager;

use vstd::prelude::*;

verus! {

/// Adds two counters; the caller guarantees the sum stays in range.
pub fn add(left: u64, right: u64) -> (r: u64)
    requires
        left + right <= u64::MAX,
    ensures
        r == left + right,
{
    left + right
}

} // verus!
