//! Handles by which one task names another.

use vstd::prelude::*;

verus! {

/// Names one incarnation of a task.
///
/// The index is fixed for the life of the system. The generation changes
/// each time the task is restarted, so a handle that was resolved before a
/// restart is stale afterwards. The kernel answers a call through a stale
/// handle with the generation of the incarnation that now runs.
#[derive(Copy, Clone, Debug, PartialEq, Eq, Structural)]
pub struct TaskHandle {
    pub index: u16,
    pub generation: u8,
}

impl TaskHandle {
    /// The handle of the task with index `index` in generation
    /// `generation`.
    pub fn new(index: u16, generation: u8) -> (handle: TaskHandle)
        ensures
            handle == (TaskHandle { index, generation }),
    {
        TaskHandle { index, generation }
    }

    /// The handle of the same task in another incarnation.
    pub fn with_generation(self, generation: u8) -> (handle: TaskHandle)
        ensures
            handle == (TaskHandle { index: self.index, generation }),
    {
        TaskHandle { index: self.index, generation }
    }
}

} // verus!
