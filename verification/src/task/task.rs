use vstd::prelude::*;

use crate::task::context::TaskContext;

verus! {

/// The life cycle of a task.
#[derive(Debug, Copy, Clone, PartialEq, Eq, Structural)]
pub enum TaskStatus {
    Uninit,
    Ready,
    Running,
    Exited,
}

/// What the kernel keeps of each task.
#[derive(Copy, Clone)]
pub struct TaskControlBlock {
    pub task_status: TaskStatus,
    pub task_cx: TaskContext,
}

} // verus!
