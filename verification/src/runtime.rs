//! Identifiers of tasks and of the logical edges between them.

use vstd::prelude::*;

verus! {

/// Identifier of one job stage of the dataflow graph.
#[derive(Clone, Copy, Debug, PartialEq, Eq, Structural, Hash)]
pub struct JobId(pub u32);

/// One parallel instance of a job stage: `task_number` is the 0-based index
/// within the stage, `num_tasks` the stage's total parallelism.
#[derive(Clone, Copy, Debug, PartialEq, Eq, Structural, Hash)]
pub struct TaskId {
    pub job_id: JobId,
    pub task_number: u16,
    pub num_tasks: u16,
}

impl TaskId {
    /// A task's index lies below the total parallelism of its stage.
    pub open spec fn wf(self) -> bool {
        self.task_number < self.num_tasks
    }

    pub fn new(job_id: JobId, task_number: u16, num_tasks: u16) -> (t: TaskId)
        requires
            task_number < num_tasks,
        ensures
            t == (TaskId { job_id, task_number, num_tasks }),
            t.wf(),
    {
        TaskId { job_id, task_number, num_tasks }
    }
}

/// One logical edge of the dataflow graph, from a specific producer task
/// instance to a specific consumer task instance.
#[derive(Clone, Copy, Debug, PartialEq, Eq, Structural, Hash)]
pub struct ChannelKey {
    pub source_task_id: TaskId,
    pub target_task_id: TaskId,
}

impl ChannelKey {
    pub open spec fn wf(self) -> bool {
        self.source_task_id.wf() && self.target_task_id.wf()
    }

    pub fn new(source_task_id: TaskId, target_task_id: TaskId) -> (k: ChannelKey)
        ensures
            k == (ChannelKey { source_task_id, target_task_id }),
    {
        ChannelKey { source_task_id, target_task_id }
    }
}

} // verus!
